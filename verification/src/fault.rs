//! The unrecoverable failures of the reload mechanism, and their
//! diagnostic messages.
//!
//! A failed metadata read is not here: it is absorbed by the change
//! detector and never surfaces. Every failure named here is fatal to the
//! operation that hit it — once the old image is gone, the mechanism must
//! not pretend a stale handle still serves — and its message names the
//! module, the path and the underlying operating-system error.

use vstd::prelude::*;
use vstd::string::StringExecFns;

verus! {

/// What went unrecoverably wrong.
#[derive(Clone, Copy, PartialEq, Eq, Structural, Debug)]
pub enum FaultKind {
    /// The artifact is missing, is not a valid image for the platform, or
    /// the operating loader rejected it.
    Load,
    /// Deleting a stale generation-suffixed copy, or writing the new one,
    /// failed.
    ReloadIo,
    /// A declared function is absent from the loaded image.
    SymbolNotFound,
}

/// The human-readable label of a fault kind.
pub open spec fn fault_label(kind: FaultKind) -> Seq<char> {
    match kind {
        FaultKind::Load => "failed to load dynamic library"@,
        FaultKind::ReloadIo => "failed to replace versioned artifact"@,
        FaultKind::SymbolNotFound => "symbol missing from dynamic library"@,
    }
}

pub fn fault_label_str(kind: &FaultKind) -> (r: &'static str)
    ensures
        r@ == fault_label(*kind),
{
    match kind {
        FaultKind::Load => "failed to load dynamic library",
        FaultKind::ReloadIo => "failed to replace versioned artifact",
        FaultKind::SymbolNotFound => "symbol missing from dynamic library",
    }
}

/// The full diagnostic message of a fault: its label, the module it hit,
/// the path involved, and the underlying operating-system error text.
pub open spec fn fault_message_spec(
    kind: FaultKind,
    module: Seq<char>,
    path: Seq<char>,
    detail: Seq<char>,
) -> Seq<char> {
    fault_label(kind) + " for module "@ + module + " at "@ + path + ": "@ + detail
}

pub fn fault_message(kind: &FaultKind, module: &str, path: &str, detail: &str) -> (r: String)
    ensures
        r@ == fault_message_spec(*kind, module@, path@, detail@),
{
    let mut s = String::from_str(fault_label_str(kind));
    s.append(" for module ");
    s.append(module);
    s.append(" at ");
    s.append(path);
    s.append(": ");
    s.append(detail);
    s
}

} // verus!
