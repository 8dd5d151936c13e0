//! The reload state machine.
//!
//! One [`ReloadEngine`] owns the runtime state of one declared module: an
//! abstract identity of the live library image (if any), the change
//! detector's baseline, and the generation counter. Every call-through
//! invocation first asks the engine for a [`CallDirective`]; when the
//! directive demands a load, the engine plans the exact teardown, cleanup,
//! copy and load steps as [`ReloadSteps`], the host carries them out, and
//! reports back through [`ReloadEngine::note_unloaded`] and
//! [`ReloadEngine::note_loaded`].
//!
//! The central safety obligation — never load a fresh image while the
//! previous one is still mapped, since some loaders would silently serve
//! the stale mapping, and never let a resolved address outlive its image —
//! is enforced by the contracts: `note_loaded` demands that no handle is
//! live, and every plan says whether a teardown must come first.

use vstd::prelude::*;

use crate::detect::ChangeDetector;
use crate::detect::Timestamp;
use crate::detect::observe_spec;
use crate::location::BuildProfile;
use crate::location::LoadStrategy;
use crate::location::Platform;
use crate::location::artifact_path;
use crate::location::artifact_path_spec;
use crate::location::decimal;
use crate::location::lemma_versioned_paths_distinct;
use crate::location::platform_requires_identity_strip;
use crate::location::requires_identity_strip;
use crate::location::versioned_path;

verus! {

/// Whether a declared module's functions are bound statically at build
/// time or through the reloadable dynamic path. A compile-time choice of
/// the host, constant for the process lifetime; the declared function set
/// and signatures are identical in both modes.
#[derive(Clone, Copy, PartialEq, Eq, Structural, Debug)]
pub enum LinkMode {
    Static,
    Dynamic,
}

/// The immutable description of one declared module: how it is bound,
/// whether calls poll for changes, where its artifact lives and under
/// which platform conventions, and how fresh images are brought in.
#[derive(Debug)]
pub struct ModuleConfig {
    /// Static or dynamic binding.
    pub mode: LinkMode,
    /// In dynamic mode, whether every call checks the artifact for
    /// changes; when unset, a reload happens only on explicit request.
    pub auto_reload: bool,
    /// The operating system whose naming and loader conventions apply.
    pub platform: Platform,
    /// The build profile whose output directory holds the artifact.
    pub profile: BuildProfile,
    /// In-place loading or generation-suffixed copies.
    pub strategy: LoadStrategy,
    /// The project-root anchor under which the module's crate lives.
    pub root: String,
    /// The module's name, which names both its directory and its symbol
    /// artifact.
    pub name: String,
}

impl ModuleConfig {
    /// The canonical on-disk path of the module's built artifact.
    pub open spec fn canonical_path(&self) -> Seq<char> {
        artifact_path_spec(self.root@, self.name@, self.platform, self.profile)
    }

    pub fn new(
        mode: LinkMode,
        auto_reload: bool,
        platform: Platform,
        profile: BuildProfile,
        strategy: LoadStrategy,
        root: String,
        name: String,
    ) -> (c: ModuleConfig)
        ensures
            c == (ModuleConfig { mode, auto_reload, platform, profile, strategy, root, name }),
    {
        ModuleConfig { mode, auto_reload, platform, profile, strategy, root, name }
    }

    /// The canonical artifact path as a value the host can hand to the
    /// file system.
    pub fn artifact_path(&self) -> (r: String)
        ensures
            r@ == self.canonical_path(),
    {
        artifact_path(self.root.as_str(), self.name.as_str(), &self.platform, &self.profile)
    }
}

/// What the engine tells a call-through wrapper to do.
#[derive(Clone, Copy, PartialEq, Eq, Structural, Debug)]
pub enum CallDirective {
    /// Static mode: the statically bound function serves the call; no
    /// handle, no timestamps, no reload, ever.
    CallStatic,
    /// The live image of the given generation serves the call as it is.
    UseLive { generation: u64 },
    /// No image is live, or the artifact changed under the auto-reload
    /// flag: the host must carry out the steps of
    /// [`ReloadEngine::plan_reload`] and report back before the call can
    /// proceed.
    LoadRequired,
}

/// The exact steps of one teardown-and-load transition, in the order the
/// host must perform them. Any failure among them is fatal to the module:
/// once the old image is torn down, there is no stale handle to fall back
/// to.
#[derive(Debug)]
pub struct ReloadSteps {
    /// Whether a live image must be unmapped first. This must precede the
    /// load: loading the same canonical path over a still-mapped image
    /// can silently return the stale mapping instead of re-reading the
    /// file.
    pub unload_first: bool,
    /// The stale generation-suffixed copy to delete, if one was written
    /// by the previous load under the copy strategy. Deleting it only
    /// now, after its image was unmapped, keeps every mapped image backed
    /// by its file.
    pub delete_path: Option<String>,
    /// Where to copy the freshly built artifact, under the copy strategy:
    /// a path suffixed with the new generation number, which the loader
    /// has never seen before.
    pub copy_to: Option<String>,
    /// Whether the copy's embedded install-name identity must be cleared
    /// before loading, so the dynamic-link editor cannot conflate it with
    /// an earlier copy sharing that metadata.
    pub strip_identity: bool,
    /// The path to hand to the operating loader.
    pub load_path: String,
}

/// The runtime state of one declared module's reload mechanism.
pub struct ReloadEngine {
    /// The module's immutable description.
    pub config: ModuleConfig,
    /// The change detector's baseline.
    pub detector: ChangeDetector,
    /// The generation of the live library image, or `None` while no image
    /// is mapped. At most one image is ever live.
    pub handle: Option<u64>,
    /// The number of successful loads so far, which is also the next
    /// generation number to be written and loaded.
    pub generation: u64,
}

/// Whether a call consults the change detector: only in dynamic mode, and
/// only when polling is on or the very first load (which records the
/// initial baseline) is still to come. With auto-reload off and an image
/// live, the detector is not consulted at all.
pub open spec fn consults_detector(e: ReloadEngine) -> bool {
    e.config.mode is Dynamic && (e.config.auto_reload || e.handle is None)
}

/// The engine state after one call-through decision: at most the change
/// detector's baseline moves; handle and generation change only through
/// the explicit teardown/load reports.
pub open spec fn prepare_state_spec(e: ReloadEngine, stamp: Option<Timestamp>) -> ReloadEngine {
    if consults_detector(e) {
        ReloadEngine {
            detector: ChangeDetector { last_seen: observe_spec(e.detector.last_seen, stamp).0 },
            ..e
        }
    } else {
        e
    }
}

/// The directive of one call-through decision: static calls go straight
/// through; an unloaded module must load first; a live image serves the
/// call unless polling is on and the fresh reading differs from the
/// baseline.
pub open spec fn prepare_directive_spec(e: ReloadEngine, stamp: Option<Timestamp>) -> CallDirective {
    if e.config.mode is Static {
        CallDirective::CallStatic
    } else if e.handle is None {
        CallDirective::LoadRequired
    } else if e.config.auto_reload && observe_spec(e.detector.last_seen, stamp).1 {
        CallDirective::LoadRequired
    } else {
        CallDirective::UseLive { generation: e.handle->0 }
    }
}

/// The engine state after the host reports the live image unmapped.
pub open spec fn unloaded_spec(e: ReloadEngine) -> ReloadEngine {
    ReloadEngine { handle: None, ..e }
}

/// The engine state after the host reports a fresh image mapped: the new
/// generation is live and the counter moves up by one.
pub open spec fn loaded_spec(e: ReloadEngine) -> ReloadEngine {
    ReloadEngine { handle: Some(e.generation), generation: (e.generation + 1) as u64, ..e }
}

impl ReloadEngine {
    /// The handle bookkeeping is consistent: a live image is always the
    /// most recently loaded generation.
    pub open spec fn wf(&self) -> bool {
        self.handle matches Some(g) ==> self.generation == g + 1
    }

    /// A module that has not loaded anything yet.
    pub fn new(config: ModuleConfig) -> (e: ReloadEngine)
        ensures
            e.config == config,
            e.detector.last_seen is None,
            e.handle is None,
            e.generation == 0,
            e.wf(),
    {
        ReloadEngine { config, detector: ChangeDetector::new(), handle: None, generation: 0 }
    }

    /// Decide what a call-through wrapper must do, feeding the detector
    /// one fresh metadata reading where it is consulted (`None` standing
    /// for a failed read, which never triggers anything by itself).
    pub fn prepare_call(&mut self, stamp: Option<Timestamp>) -> (directive: CallDirective)
        ensures
            *final(self) == prepare_state_spec(*old(self), stamp),
            directive == prepare_directive_spec(*old(self), stamp),
    {
        match self.config.mode {
            LinkMode::Static => CallDirective::CallStatic,
            LinkMode::Dynamic => {
                let needs_initial = self.handle.is_none();
                let changed: bool = if self.config.auto_reload || needs_initial {
                    self.detector.observe(stamp)
                } else {
                    false
                };
                match self.handle {
                    None => CallDirective::LoadRequired,
                    Some(g) => {
                        if self.config.auto_reload && changed {
                            CallDirective::LoadRequired
                        } else {
                            CallDirective::UseLive { generation: g }
                        }
                    },
                }
            },
        }
    }

    /// Plan the steps that replace (or first bring in) the live image.
    /// This is also the manual-reload entry point: carried out and
    /// reported back, the steps reload the module regardless of the
    /// auto-reload flag.
    pub fn plan_reload(&self) -> (steps: ReloadSteps)
        requires
            self.config.mode is Dynamic,
        ensures
            steps.unload_first == (self.handle is Some),
            steps.strip_identity == (self.config.strategy is CopyVersioned
                && requires_identity_strip(self.config.platform)),
            self.config.strategy is CopyVersioned ==> {
                &&& steps.load_path@ == self.config.canonical_path() + decimal(
                    self.generation as nat,
                )
                &&& steps.copy_to matches Some(c) && c@ == self.config.canonical_path() + decimal(
                    self.generation as nat,
                )
                &&& self.generation == 0 ==> steps.delete_path is None
                &&& self.generation > 0 ==> (steps.delete_path matches Some(p) && p@
                    == self.config.canonical_path() + decimal((self.generation - 1) as nat))
            },
            self.config.strategy is InPlace ==> {
                &&& steps.load_path@ == self.config.canonical_path()
                &&& steps.copy_to is None
                &&& steps.delete_path is None
            },
    {
        let base = self.config.artifact_path();
        match self.config.strategy {
            LoadStrategy::CopyVersioned => {
                let delete_path: Option<String> = if self.generation > 0 {
                    Some(versioned_path(base.as_str(), self.generation - 1))
                } else {
                    None
                };
                let target = versioned_path(base.as_str(), self.generation);
                let load_path = target.clone();
                ReloadSteps {
                    unload_first: self.handle.is_some(),
                    delete_path,
                    copy_to: Some(target),
                    strip_identity: platform_requires_identity_strip(&self.config.platform),
                    load_path,
                }
            },
            LoadStrategy::InPlace => {
                ReloadSteps {
                    unload_first: self.handle.is_some(),
                    delete_path: None,
                    copy_to: None,
                    strip_identity: false,
                    load_path: base,
                }
            },
        }
    }

    /// The host reports that the live image was unmapped (and its
    /// resolved addresses thereby invalidated). Nothing else moves.
    pub fn note_unloaded(&mut self)
        ensures
            *final(self) == unloaded_spec(*old(self)),
            final(self).wf(),
    {
        self.handle = None;
    }

    /// The host reports that a fresh image was mapped from the planned
    /// path. Demanding that no image is live enforces the teardown
    /// ordering: the old image must have been unmapped first.
    pub fn note_loaded(&mut self)
        requires
            old(self).handle is None,
            old(self).generation < u64::MAX,
        ensures
            *final(self) == loaded_spec(*old(self)),
            final(self).handle == Some(old(self).generation),
            final(self).generation == old(self).generation + 1,
            final(self).wf(),
    {
        self.handle = Some(self.generation);
        self.generation = self.generation + 1;
    }
}

/// A call-through decision only ever moves the detector's baseline, so
/// the handle bookkeeping stays consistent across it.
pub proof fn lemma_prepare_preserves_wf(e: ReloadEngine, stamp: Option<Timestamp>)
    requires
        e.wf(),
    ensures
        prepare_state_spec(e, stamp).wf(),
{
}

/// The engine state after `n` successive call-through decisions that all
/// feed the same metadata reading.
pub open spec fn prepare_many_spec(e: ReloadEngine, stamp: Option<Timestamp>, n: nat) -> ReloadEngine
    decreases n,
{
    if n == 0 {
        e
    } else {
        prepare_state_spec(prepare_many_spec(e, stamp, (n - 1) as nat), stamp)
    }
}

/// While an image is live and the artifact's modification time matches
/// the recorded baseline, any number of call-through decisions leave the
/// engine exactly as it was, and every one of them directs the call to
/// the live image — no reload is ever triggered without an intervening
/// change.
pub proof fn lemma_no_change_is_idempotent(e: ReloadEngine, t: Timestamp, n: nat)
    requires
        e.config.mode is Dynamic,
        e.handle is Some,
        e.config.auto_reload ==> e.detector.last_seen == Some(t),
    ensures
        prepare_many_spec(e, Some(t), n) == e,
        prepare_directive_spec(e, Some(t)) == (CallDirective::UseLive { generation: e.handle->0 }),
    decreases n,
{
    if n > 0 {
        lemma_no_change_is_idempotent(e, t, (n - 1) as nat);
    }
}

/// Under static binding nothing ever moves: any number of calls, with
/// any readings of the artifact — changed, unchanged or unreadable —
/// leave the engine untouched, and every call goes straight to the
/// statically bound function.
pub proof fn lemma_static_mode_never_reloads(e: ReloadEngine, stamp: Option<Timestamp>, n: nat)
    requires
        e.config.mode is Static,
    ensures
        prepare_many_spec(e, stamp, n) == e,
        prepare_directive_spec(e, stamp) is CallStatic,
    decreases n,
{
    if n > 0 {
        lemma_static_mode_never_reloads(e, stamp, (n - 1) as nat);
    }
}

/// With the auto-reload flag set, a call that observes a modification
/// time differing from the recorded baseline demands a load, and once the
/// host has carried the teardown and load out, the fresh generation — not
/// the old one — is live.
pub proof fn lemma_auto_mode_change_triggers_reload(e: ReloadEngine, t: Timestamp)
    requires
        e.config.mode is Dynamic,
        e.config.auto_reload,
        e.handle is Some,
        e.detector.last_seen matches Some(p) && p != t,
        e.generation < u64::MAX,
    ensures
        prepare_directive_spec(e, Some(t)) is LoadRequired,
        loaded_spec(unloaded_spec(prepare_state_spec(e, Some(t)))).handle == Some(e.generation),
        loaded_spec(unloaded_spec(prepare_state_spec(e, Some(t)))).generation == e.generation + 1,
{
}

/// With the auto-reload flag unset, a changed artifact alone reloads
/// nothing: the call still goes to the old image and the engine is left
/// untouched. Only the explicit reload steps, carried out and reported
/// back, bring the fresh generation live.
pub proof fn lemma_manual_mode_needs_explicit_reload(e: ReloadEngine, t: Timestamp)
    requires
        e.config.mode is Dynamic,
        !e.config.auto_reload,
        e.handle is Some,
    ensures
        prepare_directive_spec(e, Some(t)) == (CallDirective::UseLive { generation: e.handle->0 }),
        prepare_state_spec(e, Some(t)) == e,
        loaded_spec(unloaded_spec(e)).handle == Some(e.generation),
{
}

/// The path of the generation-suffixed copy that backs generation `g` of
/// module `e`.
pub open spec fn copy_path(e: ReloadEngine, g: nat) -> Seq<char> {
    e.config.canonical_path() + decimal(g)
}

/// The versioned-copy paths on disk after the steps planned in state `e`
/// under the copy strategy have been carried out: the stale copy of the
/// previous generation is deleted, the new generation's copy is written.
/// This is exactly what [`ReloadEngine::plan_reload`] puts in
/// `delete_path` and `copy_to`.
pub open spec fn copies_after_reload(disk: Set<Seq<char>>, e: ReloadEngine) -> Set<Seq<char>> {
    (if e.generation > 0 {
        disk.remove(copy_path(e, (e.generation - 1) as nat))
    } else {
        disk
    }).insert(copy_path(e, e.generation as nat))
}

/// The versioned-copy paths the mechanism expects on disk in state `e`:
/// none before the first load, and exactly the one backing the current
/// image afterwards.
pub open spec fn expected_copies(e: ReloadEngine) -> Set<Seq<char>> {
    if e.generation == 0 {
        Set::empty()
    } else {
        set![copy_path(e, (e.generation - 1) as nat)]
    }
}

/// Under the copy strategy every successful reload leaves exactly one
/// versioned artifact copy on disk — the one backing the live image:
/// starting from the expected disk contents, carrying out the planned
/// delete and copy yields the disk contents expected after the teardown
/// and load are reported, which is the new generation's copy alone —
/// never zero copies, and never a lingering stale one.
pub proof fn lemma_copy_strategy_keeps_one_copy(disk: Set<Seq<char>>, e: ReloadEngine)
    requires
        disk == expected_copies(e),
        e.generation < u64::MAX,
    ensures
        copies_after_reload(disk, e) == expected_copies(loaded_spec(unloaded_spec(e))),
        copies_after_reload(disk, e) == set![copy_path(e, e.generation as nat)],
        copies_after_reload(disk, e).len() == 1,
{
    assert(copies_after_reload(disk, e) =~= set![copy_path(e, e.generation as nat)]);
    assert(expected_copies(loaded_spec(unloaded_spec(e))) =~= set![
        copy_path(e, e.generation as nat),
    ]);
    assert(set![copy_path(e, e.generation as nat)].len() == 1);
}

/// The copy written for a reload goes to a path no earlier generation
/// ever used: decimal generation suffixes are a one-to-one code, so even
/// a loader that caches images by path for the whole process lifetime
/// has never seen the planned load path and must read the fresh artifact.
pub proof fn lemma_copy_path_is_fresh(e: ReloadEngine, g: nat)
    requires
        g < e.generation,
    ensures
        copy_path(e, e.generation as nat) != copy_path(e, g),
{
    lemma_versioned_paths_distinct(e.config.canonical_path(), e.generation as nat, g);
}

} // verus!
