//! Hot-reload engine for native dynamic libraries, for use while developing.
//!
//! A host process declares a module whose compiled artifact (a shared
//! object) it wants to call into. This crate provides the verified core of
//! the mechanism that keeps those calls pointed at fresh code:
//!
//! - [`location`] computes the artifact's on-disk path from a project root,
//!   the module name and a platform naming convention, together with the
//!   generation-suffixed paths used where an operating loader caches a
//!   shared object by path;
//! - [`detect`] tracks the artifact's modification time and decides whether
//!   it has changed since the last successful observation;
//! - [`engine`] is the reload state machine: it decides, on every
//!   call-through invocation, whether the live image can serve the call or
//!   must first be torn down and replaced, and in the latter case plans the
//!   exact teardown, cleanup, copy and load steps;
//! - [`fault`] names the unrecoverable failures of the mechanism and
//!   renders their diagnostic messages.
//!
//! Opening, unloading and resolving symbols in a real dynamic library, as
//! well as reading file metadata, are inherently outside what can be
//! verified; an unverified host performs those steps exactly as the
//! engine's plans direct and reports the outcomes back.

use vstd::prelude::*;

pub mod detect;
pub mod engine;
pub mod fault;
pub mod location;

use crate::engine::LinkMode;

verus! {

/// True exactly when the given link mode binds the declared functions
/// through the reloadable dynamic path rather than statically.
pub fn is_hotswapping_enabled(mode: LinkMode) -> (enabled: bool)
    ensures
        enabled == (mode is Dynamic),
{
    match mode {
        LinkMode::Dynamic => true,
        LinkMode::Static => false,
    }
}

} // verus!
