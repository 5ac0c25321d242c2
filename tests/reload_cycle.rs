use inferno_engine::loader::{next_load_action, LoadAction, LoadProgress};
use inferno_engine::module::{EntryCall, EntryPoints, LoadError, SymbolScan, EntryPoint};
use inferno_engine::reloader::Reloader;
use inferno_engine::table::State;
use inferno_engine::watcher::Timestamp;

/// What the file system and the dynamic loader answer during one load.
#[derive(Clone, Copy)]
struct Disk {
    artifact: bool,
    active_dir: bool,
    can_create_dir: bool,
    copy_ok: bool,
    open_ok: bool,
    scan: SymbolScan,
}

const FULL_SCAN: SymbolScan = SymbolScan { setup: true, update: true, draw: true, get_message: true };

fn healthy() -> Disk {
    Disk { artifact: true, active_dir: true, can_create_dir: true, copy_ok: true, open_ok: true, scan: FULL_SCAN }
}

/// Runs the load steps against `disk`; `None` when the host must abort.
fn run_load(disk: Disk) -> Option<Result<EntryPoints, LoadError>> {
    let mut p = LoadProgress::new();
    for _ in 0..16 {
        match next_load_action(&p) {
            LoadAction::ProbeArtifact => p.artifact_present = Some(disk.artifact),
            LoadAction::ProbeActiveDir => p.active_dir_present = Some(disk.active_dir),
            LoadAction::CreateActiveDir => p.active_dir_created = Some(disk.can_create_dir),
            LoadAction::CopyArtifact => p.copied = Some(disk.copy_ok),
            LoadAction::OpenStaged => p.opened = Some(disk.open_ok),
            LoadAction::ResolveEntryPoints => p.symbols = Some(disk.scan),
            LoadAction::Finish(ep) => return Some(Ok(ep)),
            LoadAction::Fail(e) => return Some(Err(e)),
            LoadAction::Abort => return None,
        }
    }
    panic!("load did not finish");
}

/// A host whose modules are numbered; it records every call it makes.
struct Host {
    table: State<()>,
    reloader: Reloader<u32>,
    next_id: u32,
    calls: Vec<(u32, EntryCall)>,
    unloaded: Vec<u32>,
    last_error: Option<LoadError>,
}

impl Host {
    fn new() -> Host {
        Host {
            table: State::new((), 0x103030ff),
            reloader: Reloader::new(),
            next_id: 1,
            calls: Vec::new(),
            unloaded: Vec::new(),
            last_error: None,
        }
    }

    fn frame(&mut self, modified: Option<Timestamp>, disk: Disk) {
        if self.reloader.should_reload(modified) {
            let loaded = run_load(disk).expect("host aborted").map(|ep| {
                let id = self.next_id;
                self.next_id += 1;
                (id, ep)
            });
            match self.reloader.reload(&mut self.table, loaded, modified.unwrap()) {
                Ok(previous) => {
                    if let Some(old) = previous {
                        self.unloaded.push(old);
                    }
                    self.last_error = None;
                }
                Err(e) => self.last_error = Some(e),
            }
        }
        let active = self.reloader.active().map(|a| *a.library());
        for call in self.reloader.frame_calls() {
            self.calls.push((active.unwrap(), call));
        }
    }

    fn active_id(&self) -> Option<u32> {
        self.reloader.active().map(|a| *a.library())
    }

    fn count(&self, id: u32, call: EntryCall) -> usize {
        self.calls.iter().filter(|c| **c == (id, call)).count()
    }
}

#[test]
fn startup_load_sets_first_version() {
    let mut host = Host::new();
    host.frame(Some(Timestamp(100)), healthy());
    assert_eq!(host.table.version(), 1);
    assert_eq!(host.active_id(), Some(1));
    assert_eq!(
        host.calls,
        vec![(1, EntryCall::Setup), (1, EntryCall::Update), (1, EntryCall::Draw)]
    );
}

#[test]
fn newer_artifact_reloads() {
    let mut host = Host::new();
    host.frame(Some(Timestamp(100)), healthy());
    host.frame(Some(Timestamp(100)), healthy());
    assert_eq!(host.table.version(), 1);
    host.frame(Some(Timestamp(200)), healthy());
    assert_eq!(host.table.version(), 2);
    assert_eq!(host.active_id(), Some(2));
    assert_eq!(host.unloaded, vec![1]);
    let setups = host.calls.iter().filter(|c| c.1 == EntryCall::Setup).count();
    assert_eq!(setups, 2);
    assert_eq!(host.count(2, EntryCall::Setup), 1);
}

#[test]
fn deleted_artifact_keeps_handle() {
    let mut host = Host::new();
    host.frame(Some(Timestamp(100)), healthy());
    host.calls.clear();
    let mut gone = healthy();
    gone.artifact = false;
    host.frame(None, gone);
    assert_eq!(host.table.version(), 1);
    assert_eq!(host.active_id(), Some(1));
    assert_eq!(host.last_error, None);
    assert_eq!(host.calls, vec![(1, EntryCall::Update), (1, EntryCall::Draw)]);
}

#[test]
fn stage_failure_keeps_handle() {
    let mut host = Host::new();
    host.frame(Some(Timestamp(100)), healthy());
    host.calls.clear();
    let mut locked = healthy();
    locked.copy_ok = false;
    host.frame(Some(Timestamp(200)), locked);
    assert_eq!(host.last_error, Some(LoadError::StageFailure));
    assert_eq!(host.table.version(), 1);
    assert_eq!(host.active_id(), Some(1));
    assert!(host.unloaded.is_empty());
    assert_eq!(host.calls, vec![(1, EntryCall::Update), (1, EntryCall::Draw)]);
}

#[test]
fn missing_update_export_keeps_handle() {
    let mut host = Host::new();
    host.frame(Some(Timestamp(100)), healthy());
    host.calls.clear();
    let mut broken = healthy();
    broken.scan.update = false;
    host.frame(Some(Timestamp(200)), broken);
    assert_eq!(host.last_error, Some(LoadError::EntryPointMissing(EntryPoint::Update)));
    assert_eq!(host.table.version(), 1);
    assert_eq!(host.active_id(), Some(1));
    assert!(host.unloaded.is_empty());
    assert_eq!(host.calls, vec![(1, EntryCall::Update), (1, EntryCall::Draw)]);
}

#[test]
fn version_counts_successful_reloads() {
    let mut host = Host::new();
    let mut locked = healthy();
    locked.copy_ok = false;
    let mut versions = Vec::new();
    let plan = [(10, true), (20, false), (20, true), (30, false), (40, false), (40, true)];
    for (t, ok) in plan {
        host.frame(Some(Timestamp(t)), if ok { healthy() } else { locked });
        versions.push(host.table.version());
    }
    assert_eq!(versions, vec![1, 1, 2, 2, 2, 3]);
}

#[test]
fn setup_once_per_handle_before_update() {
    let mut host = Host::new();
    host.frame(Some(Timestamp(5)), healthy());
    for _ in 0..4 {
        host.frame(Some(Timestamp(5)), healthy());
    }
    assert_eq!(host.count(1, EntryCall::Setup), 1);
    assert_eq!(host.count(1, EntryCall::Update), 5);
    assert_eq!(host.calls[0], (1, EntryCall::Setup));
}

#[test]
fn failed_attempt_is_retried() {
    let mut host = Host::new();
    host.frame(Some(Timestamp(5)), healthy());
    let mut closed = healthy();
    closed.open_ok = false;
    host.frame(Some(Timestamp(9)), closed);
    assert_eq!(host.last_error, Some(LoadError::OpenFailure));
    assert_eq!(host.reloader.last_observed(), Some(Timestamp(5)));
    assert!(host.reloader.should_reload(Some(Timestamp(9))));
    host.frame(Some(Timestamp(9)), healthy());
    assert_eq!(host.reloader.last_observed(), Some(Timestamp(9)));
    assert!(!host.reloader.should_reload(Some(Timestamp(9))));
    assert_eq!(host.table.version(), 2);
}

#[test]
fn swap_keeps_table_data() {
    let mut table = State::new(7u8, 0x11223344);
    let mut reloader: Reloader<u32> = Reloader::new();
    let ep = EntryPoints { draw: false, get_message: false };
    assert_eq!(reloader.reload(&mut table, Ok((1, ep)), Timestamp(1)), Ok(None));
    table.set_clear_color(0xaabbccdd);
    assert_eq!(reloader.reload(&mut table, Ok((2, ep)), Timestamp(2)), Ok(Some(1)));
    assert_eq!(table.version(), 2);
    assert_eq!(table.clear_color(), 0xaabbccdd);
    assert_eq!(*table.capabilities(), 7u8);
}

#[test]
fn module_without_draw_gets_no_draw_call() {
    let mut table = State::new((), 0);
    let mut reloader: Reloader<u32> = Reloader::new();
    assert!(reloader.frame_calls().is_empty());
    let ep = EntryPoints { draw: false, get_message: true };
    reloader.reload(&mut table, Ok((1, ep)), Timestamp(1)).unwrap();
    assert_eq!(reloader.frame_calls(), vec![EntryCall::Setup, EntryCall::Update]);
    assert_eq!(reloader.frame_calls(), vec![EntryCall::Update]);
}

#[test]
fn first_load_fails_then_succeeds() {
    let mut host = Host::new();
    let mut missing = healthy();
    missing.artifact = false;
    host.frame(Some(Timestamp(3)), missing);
    assert_eq!(host.last_error, Some(LoadError::ArtifactMissing));
    assert_eq!(host.active_id(), None);
    assert_eq!(host.table.version(), 0);
    assert!(host.calls.is_empty());
    host.frame(Some(Timestamp(3)), healthy());
    assert_eq!(host.table.version(), 1);
    assert_eq!(host.active_id(), Some(1));
}
