//! End-to-end scenarios for the reload engine, driven through a simulated
//! host: the artifact, the versioned copies and the loaded image are plain
//! values here, and the host performs exactly the steps the engine plans.

use dymod::detect::Timestamp;
use dymod::engine::CallDirective;
use dymod::engine::LinkMode;
use dymod::engine::ModuleConfig;
use dymod::engine::ReloadEngine;
use dymod::engine::ReloadSteps;
use dymod::is_hotswapping_enabled;
use dymod::location::BuildProfile;
use dymod::location::LoadStrategy;
use dymod::location::Platform;

/// What the exported `count` function of a given image version returns.
fn count_impl(image: u64, sheep: u32) -> &'static str {
    if image >= 2 {
        "Zzzzzzzz..."
    } else {
        match sheep {
            0 => "None",
            1 => "One",
            2 => "Two",
            3 => "Many",
            _ => "Lots",
        }
    }
}

/// The artifact on disk: its modification time and which image version a
/// load of it yields.
#[derive(Clone, Copy)]
struct SimArtifact {
    stamp: Timestamp,
    image: u64,
}

/// A host process around one declared module. It owns the pretend disk
/// (canonical artifact plus versioned copies) and the pretend loader
/// (which image version is mapped), and does nothing the engine did not
/// direct.
struct SimHost {
    engine: ReloadEngine,
    artifact: SimArtifact,
    /// Versioned copies on disk: path and the image a load of it yields.
    copies: Vec<(String, u64)>,
    /// The image version currently mapped, if any.
    mapped: Option<u64>,
    /// The image version bound at host build time, serving static calls.
    static_image: u64,
}

impl SimHost {
    fn new(mode: LinkMode, auto_reload: bool, platform: Platform, strategy: LoadStrategy) -> SimHost {
        let config = ModuleConfig::new(
            mode,
            auto_reload,
            platform,
            BuildProfile::Debug,
            strategy,
            String::from("/proj"),
            String::from("subcrate"),
        );
        SimHost {
            engine: ReloadEngine::new(config),
            artifact: SimArtifact { stamp: Timestamp { secs: 1000, nanos: 0 }, image: 1 },
            copies: Vec::new(),
            mapped: None,
            static_image: 1,
        }
    }

    /// Rebuild the artifact: new behavior, new modification time.
    fn rebuild(&mut self, image: u64) {
        self.artifact.image = image;
        self.artifact.stamp.secs += 60;
    }

    /// Carry out planned reload steps exactly, reporting each stage back.
    fn perform(&mut self, steps: ReloadSteps) {
        if steps.unload_first {
            self.mapped = None;
            self.engine.note_unloaded();
        }
        if let Some(stale) = steps.delete_path {
            let at = self
                .copies
                .iter()
                .position(|(p, _)| *p == stale)
                .expect("stale versioned copy should exist on disk");
            self.copies.remove(at);
        }
        let loaded_image = if let Some(target) = steps.copy_to {
            assert_eq!(target, steps.load_path);
            self.copies.push((target, self.artifact.image));
            self.artifact.image
        } else {
            self.artifact.image
        };
        assert!(self.mapped.is_none(), "an image is still mapped at load time");
        assert!(self.engine.generation < u64::MAX);
        self.mapped = Some(loaded_image);
        self.engine.note_loaded();
    }

    /// One call-through invocation of the exported `count`, with the given
    /// metadata reading (`None` simulating a failed read).
    fn count_with_reading(&mut self, reading: Option<Timestamp>, sheep: u32) -> &'static str {
        match self.engine.prepare_call(reading) {
            CallDirective::CallStatic => count_impl(self.static_image, sheep),
            CallDirective::UseLive { .. } => {
                count_impl(self.mapped.expect("live directive without a mapped image"), sheep)
            }
            CallDirective::LoadRequired => {
                let steps = self.engine.plan_reload();
                self.perform(steps);
                count_impl(self.mapped.expect("load reported but nothing mapped"), sheep)
            }
        }
    }

    fn count(&mut self, sheep: u32) -> &'static str {
        let reading = Some(self.artifact.stamp);
        self.count_with_reading(reading, sheep)
    }

    /// The manual reload entry point.
    fn reload(&mut self) {
        let steps = self.engine.plan_reload();
        self.perform(steps);
    }
}

#[test]
fn initial_load_serves_the_built_artifact() {
    let mut host = SimHost::new(LinkMode::Dynamic, true, Platform::Linux, LoadStrategy::InPlace);
    assert_eq!(host.count(0), "None");
    assert_eq!(host.count(1), "One");
    assert_eq!(host.count(2), "Two");
    assert_eq!(host.count(3), "Many");
    assert_eq!(host.count(4), "Lots");
    assert_eq!(host.engine.handle, Some(0));
    assert_eq!(host.engine.generation, 1);
}

#[test]
fn auto_reload_picks_up_a_rebuilt_artifact() {
    let mut host = SimHost::new(LinkMode::Dynamic, true, Platform::Linux, LoadStrategy::InPlace);
    assert_eq!(host.count(0), "None");
    assert_eq!(host.count(4), "Lots");
    host.rebuild(2);
    assert_eq!(host.count(0), "Zzzzzzzz...");
    assert_eq!(host.count(3), "Zzzzzzzz...");
    assert_eq!(host.engine.handle, Some(1));
    assert_eq!(host.engine.generation, 2);
}

#[test]
fn manual_mode_keeps_old_code_until_reload_is_requested() {
    let mut host = SimHost::new(LinkMode::Dynamic, false, Platform::Linux, LoadStrategy::InPlace);
    assert_eq!(host.count(0), "None");
    host.rebuild(2);
    assert_eq!(host.count(0), "None");
    assert_eq!(host.count(3), "Many");
    assert_eq!(host.engine.handle, Some(0));
    host.reload();
    assert_eq!(host.count(0), "Zzzzzzzz...");
    assert_eq!(host.engine.handle, Some(1));
}

#[test]
fn unchanged_artifact_never_triggers_a_reload() {
    let mut host = SimHost::new(LinkMode::Dynamic, true, Platform::Linux, LoadStrategy::InPlace);
    assert_eq!(host.count(3), "Many");
    let handle_after_first = host.engine.handle;
    for _ in 0..50 {
        assert_eq!(host.count(3), "Many");
        assert_eq!(host.engine.handle, handle_after_first);
        assert_eq!(host.engine.generation, 1);
    }
}

#[test]
fn static_mode_never_reloads() {
    let mut host = SimHost::new(LinkMode::Static, true, Platform::Linux, LoadStrategy::InPlace);
    assert!(!is_hotswapping_enabled(LinkMode::Static));
    assert_eq!(host.count(0), "None");
    assert_eq!(host.count(1), "One");
    assert_eq!(host.count(2), "Two");
    assert_eq!(host.count(3), "Many");
    assert_eq!(host.count(4), "Lots");
    host.rebuild(2);
    assert_eq!(host.count(0), "None");
    assert_eq!(host.count(4), "Lots");
    assert_eq!(host.engine.handle, None);
    assert_eq!(host.engine.generation, 0);
}

#[test]
fn hotswapping_flag_follows_link_mode() {
    assert!(is_hotswapping_enabled(LinkMode::Dynamic));
    assert!(!is_hotswapping_enabled(LinkMode::Static));
}

#[test]
fn copy_strategy_leaves_exactly_one_versioned_copy() {
    let mut host =
        SimHost::new(LinkMode::Dynamic, true, Platform::MacOs, LoadStrategy::CopyVersioned);
    let base = "/proj/subcrate/target/debug/libsubcrate.dylib";

    assert_eq!(host.count(0), "None");
    assert_eq!(host.copies.len(), 1);
    assert_eq!(host.copies[0].0, format!("{}0", base));

    for round in 1..6u64 {
        host.rebuild(round + 1);
        assert_eq!(host.count(0), "Zzzzzzzz...");
        assert_eq!(host.copies.len(), 1, "exactly one versioned copy after reload {}", round);
        assert_eq!(host.copies[0].0, format!("{}{}", base, round));
        assert_eq!(host.engine.generation, round + 1);
    }
}

#[test]
fn copy_strategy_strips_identity_only_where_required() {
    let mac =
        SimHost::new(LinkMode::Dynamic, true, Platform::MacOs, LoadStrategy::CopyVersioned);
    let steps = mac.engine.plan_reload();
    assert!(steps.strip_identity);
    assert_eq!(
        steps.load_path,
        "/proj/subcrate/target/debug/libsubcrate.dylib0"
    );

    let win =
        SimHost::new(LinkMode::Dynamic, true, Platform::Windows, LoadStrategy::CopyVersioned);
    let steps = win.engine.plan_reload();
    assert!(!steps.strip_identity);
    assert_eq!(steps.load_path, "/proj/subcrate/target/debug/subcrate.dll0");
    assert_eq!(steps.copy_to, Some(String::from("/proj/subcrate/target/debug/subcrate.dll0")));
    assert_eq!(steps.delete_path, None);

    let linux = SimHost::new(LinkMode::Dynamic, true, Platform::Linux, LoadStrategy::InPlace);
    let steps = linux.engine.plan_reload();
    assert!(!steps.strip_identity);
    assert_eq!(steps.copy_to, None);
    assert_eq!(steps.load_path, "/proj/subcrate/target/debug/libsubcrate.so");
}

#[test]
fn failed_metadata_read_is_not_fatal_and_not_a_change() {
    let mut host = SimHost::new(LinkMode::Dynamic, true, Platform::Linux, LoadStrategy::InPlace);
    assert_eq!(host.count(0), "None");
    // A transient stat failure: the call succeeds against the live image
    // and nothing reloads.
    assert_eq!(host.count_with_reading(None, 0), "None");
    assert_eq!(host.engine.handle, Some(0));
    assert_eq!(host.engine.generation, 1);
    // A real change in between failed reads is still caught by the next
    // successful read.
    host.rebuild(2);
    assert_eq!(host.count_with_reading(None, 0), "None");
    assert_eq!(host.count(0), "Zzzzzzzz...");
    assert_eq!(host.engine.generation, 2);
}
