use sidecar_supervisor::process::{backend_launch_spec, database_launch_spec, Handle, LaunchError, Role};
use sidecar_supervisor::supervisor::{Action, Event, Phase, Report, Supervisor, SETTLE_DELAY_MS};

const RES: &str = "/opt/app/resources";
const DATA_ROOT: &str = "/home/user/.local/share";

fn supported() -> Supervisor {
    Supervisor::new(sidecar_supervisor::platform::Platform::LinuxX64, RES, DATA_ROOT)
}

fn excluded() -> Supervisor {
    Supervisor::new(sidecar_supervisor::platform::Platform::WindowsX64, RES, DATA_ROOT)
}

#[test]
fn database_launch_spec_has_port_module_dir_and_no_daemonize() {
    let s = database_launch_spec("m.so".to_string(), "/data".to_string());
    assert_eq!(s.program, "graph-engine");
    assert_eq!(
        s.args,
        vec![
            "--port".to_string(),
            "6379".to_string(),
            "--loadmodule".to_string(),
            "m.so".to_string(),
            "--dir".to_string(),
            "/data".to_string(),
            "--daemonize".to_string(),
            "no".to_string(),
        ]
    );
    assert_eq!(s.working_dir, Some("/data".to_string()));
}

#[test]
fn backend_launch_spec_has_no_arguments() {
    let s = backend_launch_spec();
    assert_eq!(s.program, "cvprd-backend");
    assert!(s.args.is_empty());
    assert_eq!(s.working_dir, None);
}

#[test]
fn full_startup_orders_dir_database_settle_backend() {
    let mut sup = supported();
    assert_eq!(sup.phase(), Phase::Boot);

    let a = sup.step(Event::Start);
    assert_eq!(
        a,
        vec![Action::CreateDataDir(format!("{DATA_ROOT}/cvprd/graphdb"))]
    );
    assert_eq!(sup.phase(), Phase::DirPending);

    let a = sup.step(Event::DirDone(true));
    assert_eq!(a.len(), 1);
    match &a[0] {
        Action::LaunchDatabase(spec) => {
            assert_eq!(spec.program, "graph-engine");
            assert_eq!(spec.args[3], format!("{RES}/graph-engine-linux-x64.so"));
            assert_eq!(spec.args[5], format!("{DATA_ROOT}/cvprd/graphdb"));
        }
        other => panic!("expected a database launch, got {other:?}"),
    }
    assert_eq!(sup.phase(), Phase::DatabasePending);

    let a = sup.step(Event::DatabaseLaunched(Ok(Handle { pid: 100 })));
    assert_eq!(
        a,
        vec![
            Action::Report(Report::LaunchSucceeded(Role::Database, 100)),
            Action::Sleep(SETTLE_DELAY_MS),
        ]
    );
    assert_eq!(sup.phase(), Phase::Settling);
    assert_eq!(sup.handle(Role::Database), Some(Handle { pid: 100 }));

    let a = sup.step(Event::SettleElapsed);
    assert_eq!(a, vec![Action::LaunchBackend(backend_launch_spec())]);
    assert_eq!(sup.phase(), Phase::BackendPending);

    let a = sup.step(Event::BackendLaunched(Ok(Handle { pid: 200 })));
    assert_eq!(a, vec![Action::Report(Report::LaunchSucceeded(Role::Backend, 200))]);
    assert_eq!(sup.phase(), Phase::Running);
    assert_eq!(sup.handle(Role::Backend), Some(Handle { pid: 200 }));
}

#[test]
fn directory_creation_outcome_is_irrelevant() {
    let mut ok = supported();
    let mut failed = supported();
    ok.step(Event::Start);
    failed.step(Event::Start);
    let a_ok = ok.step(Event::DirDone(true));
    let a_failed = failed.step(Event::DirDone(false));
    assert_eq!(a_ok, a_failed);
    assert_eq!(ok.phase(), failed.phase());
}

#[test]
fn database_failure_still_launches_backend() {
    let mut sup = supported();
    sup.step(Event::Start);
    sup.step(Event::DirDone(true));
    let a = sup.step(Event::DatabaseLaunched(Err(LaunchError::NotFound)));
    assert_eq!(
        a,
        vec![
            Action::Report(Report::LaunchFailed(Role::Database, LaunchError::NotFound)),
            Action::Sleep(SETTLE_DELAY_MS),
        ]
    );
    assert_eq!(sup.handle(Role::Database), None);

    let a = sup.step(Event::SettleElapsed);
    assert_eq!(a, vec![Action::LaunchBackend(backend_launch_spec())]);

    let a = sup.step(Event::BackendLaunched(Ok(Handle { pid: 300 })));
    assert_eq!(a, vec![Action::Report(Report::LaunchSucceeded(Role::Backend, 300))]);
    assert_eq!(sup.phase(), Phase::Running);
    assert_eq!(sup.handle(Role::Backend), Some(Handle { pid: 300 }));
}

#[test]
fn teardown_kills_each_live_handle_once_and_empties_the_registry() {
    let mut sup = supported();
    sup.step(Event::Start);
    sup.step(Event::DirDone(true));
    sup.step(Event::DatabaseLaunched(Ok(Handle { pid: 100 })));
    sup.step(Event::SettleElapsed);
    sup.step(Event::BackendLaunched(Ok(Handle { pid: 200 })));
    assert!(!sup.registry_is_empty());

    let a = sup.step(Event::WindowDestroyed);
    assert_eq!(
        a,
        vec![
            Action::Report(Report::TerminationIssued(Role::Database, 100)),
            Action::Kill(100),
            Action::Report(Report::TerminationIssued(Role::Backend, 200)),
            Action::Kill(200),
        ]
    );
    assert_eq!(sup.phase(), Phase::Closed);
    assert!(sup.registry_is_empty());
}

#[test]
fn teardown_skips_the_absent_database_and_still_kills_the_backend() {
    let mut sup = supported();
    sup.step(Event::Start);
    sup.step(Event::DirDone(true));
    sup.step(Event::DatabaseLaunched(Err(LaunchError::SpawnRefused)));
    sup.step(Event::SettleElapsed);
    sup.step(Event::BackendLaunched(Ok(Handle { pid: 200 })));

    let a = sup.step(Event::WindowDestroyed);
    assert_eq!(
        a,
        vec![
            Action::Report(Report::TerminationIssued(Role::Backend, 200)),
            Action::Kill(200),
        ]
    );
    assert!(sup.registry_is_empty());
}

#[test]
fn excluded_platform_attempts_only_the_backend_and_creates_no_directory() {
    let mut sup = excluded();
    let mut all: Vec<Action> = Vec::new();

    all.extend(sup.step(Event::Start));
    all.extend(sup.step(Event::SettleElapsed));
    all.extend(sup.step(Event::BackendLaunched(Ok(Handle { pid: 200 }))));
    assert_eq!(sup.phase(), Phase::Running);

    let launches = all
        .iter()
        .filter(|a| matches!(a, Action::LaunchBackend(_) | Action::LaunchDatabase(_)))
        .count();
    assert_eq!(launches, 1);
    assert!(all.iter().any(|a| matches!(a, Action::LaunchBackend(_))));
    assert!(!all.iter().any(|a| matches!(a, Action::CreateDataDir(_))));
    assert!(!all.iter().any(|a| matches!(a, Action::LaunchDatabase(_))));
}

#[test]
fn both_launches_failing_still_reaches_running_with_empty_slots() {
    let mut sup = supported();
    let mut all: Vec<Action> = Vec::new();
    all.extend(sup.step(Event::Start));
    all.extend(sup.step(Event::DirDone(true)));
    all.extend(sup.step(Event::DatabaseLaunched(Err(LaunchError::NotFound))));
    all.extend(sup.step(Event::SettleElapsed));
    all.extend(sup.step(Event::BackendLaunched(Err(LaunchError::NotFound))));

    assert_eq!(sup.phase(), Phase::Running);
    assert!(sup.registry_is_empty());
    let failures = all
        .iter()
        .filter(|a| matches!(a, Action::Report(Report::LaunchFailed(_, _))))
        .count();
    assert_eq!(failures, 2);

    let a = sup.step(Event::WindowDestroyed);
    assert!(a.is_empty());
    assert_eq!(sup.phase(), Phase::Closed);
}

#[test]
fn spawn_refused_is_reported_as_such() {
    let mut sup = supported();
    sup.step(Event::Start);
    sup.step(Event::DirDone(true));
    let a = sup.step(Event::DatabaseLaunched(Err(LaunchError::SpawnRefused)));
    assert_eq!(
        a[0],
        Action::Report(Report::LaunchFailed(Role::Database, LaunchError::SpawnRefused))
    );
}

#[test]
fn events_out_of_phase_are_ignored() {
    let mut sup = supported();
    assert!(sup.step(Event::SettleElapsed).is_empty());
    assert!(sup.step(Event::BackendLaunched(Ok(Handle { pid: 1 }))).is_empty());
    assert_eq!(sup.phase(), Phase::Boot);

    sup.step(Event::Start);
    assert!(sup.step(Event::Start).is_empty());
    assert_eq!(sup.phase(), Phase::DirPending);
}

#[test]
fn window_destroyed_before_any_launch_is_a_clean_close() {
    let mut sup = supported();
    let a = sup.step(Event::WindowDestroyed);
    assert!(a.is_empty());
    assert_eq!(sup.phase(), Phase::Closed);
    assert!(sup.registry_is_empty());
}
