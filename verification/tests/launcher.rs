use oko_desktop::error::SupervisorError;
use oko_desktop::launch_plan::{plan_launch, EmbeddedBackend, SpawnStrategy};
use oko_desktop::launcher::{
    directory_error, ensure_user_runtime_files, launch_action, launch_step, port_error,
    resolve_first_existing, should_create_bootstrap_config, spawn_embedded_backend, spawn_error,
    DirectoryPurpose, DirectoryStep, LaunchAction, LaunchEvent, LaunchSite, LaunchStage, PathProbe,
    PortStage, SpawnStage,
};
use oko_desktop::layout::runtime_paths;
use oko_desktop::registry::BackendPidRecord;

const BUNDLED_BINARY: &str = "/res/binaries/oko-backend-aarch64-apple-darwin";
const BUNDLED_TEMPLATE: &str = "/res/resources/dashboard.default.yaml";
const START: &str = "Mon Jan  5 10:11:12 2026";

struct World {
    port: Result<u16, (PortStage, &'static str)>,
    failing_directory: Option<DirectoryPurpose>,
    files: Vec<&'static str>,
    copy_fails: bool,
    spawn: Result<u32, SpawnStage>,
    start_signature: Option<&'static str>,
}

fn world(files: &[&'static str]) -> World {
    World {
        port: Ok(50123),
        failing_directory: None,
        files: files.to_vec(),
        copy_fails: false,
        spawn: Ok(4711),
        start_signature: Some(START),
    }
}

fn site() -> LaunchSite {
    LaunchSite {
        runtime_dir: "/home/u/.oko".to_string(),
        explicit_binary: None,
        explicit_template: None,
        resource_dir: Some("/res".to_string()),
        working_dir: Some("/w/src/frontend".to_string()),
    }
}

fn probe(path: &str, exists: bool) -> PathProbe {
    PathProbe { path: path.to_string(), exists }
}

fn step(path: &str, purpose: DirectoryPurpose) -> DirectoryStep {
    DirectoryStep { path: path.to_string(), purpose }
}

fn texts(items: &[&str]) -> Vec<String> {
    items.iter().map(|s| s.to_string()).collect()
}

fn perform(world: &mut World, action: &LaunchAction) -> LaunchEvent {
    match action {
        LaunchAction::ReconcileStale => LaunchEvent::StaleChecked,
        LaunchAction::ReservePort => match world.port {
            Ok(port) => LaunchEvent::PortReserved { port },
            Err((port_stage, detail)) => LaunchEvent::PortFailed { port_stage, detail: detail.to_string() },
        },
        LaunchAction::CreateDirectories { steps } => {
            for s in steps {
                if Some(s.purpose) == world.failing_directory {
                    return LaunchEvent::DirectoryFailed { purpose: s.purpose, detail: "denied".to_string() };
                }
            }
            LaunchEvent::DirectoriesCreated
        }
        LaunchAction::ProbeRuntimeFiles { config_path, db_file } => LaunchEvent::RuntimeFilesProbed {
            config_exists: world.files.contains(&config_path.as_str()),
            db_exists: world.files.contains(&db_file.as_str()),
        },
        LaunchAction::Probe { candidates } => LaunchEvent::Probed {
            probes: candidates.iter().map(|c| probe(c, world.files.contains(&c.as_str()))).collect(),
        },
        LaunchAction::CopyTemplate { from, to } => {
            assert!(world.files.contains(&from.as_str()));
            assert_eq!(to, "/home/u/.oko/dashboard.yaml");
            if world.copy_fails {
                LaunchEvent::TemplateCopyFailed { detail: "disk full".to_string() }
            } else {
                world.files.push("/home/u/.oko/dashboard.yaml");
                LaunchEvent::TemplateCopied
            }
        }
        LaunchAction::Spawn { .. } => match world.spawn {
            Ok(pid) => LaunchEvent::Spawned { pid },
            Err(spawn_stage) => LaunchEvent::SpawnFailed { spawn_stage, detail: "refused".to_string() },
        },
        LaunchAction::QueryStartSignature { pid } => {
            assert_eq!(Ok(*pid), world.spawn);
            LaunchEvent::StartSignatureRead { value: world.start_signature.map(|s| s.to_string()) }
        }
        LaunchAction::Done => unreachable!(),
    }
}

fn run_launch(site: &LaunchSite, world: &mut World) -> (LaunchStage, Vec<LaunchAction>) {
    let mut actions: Vec<LaunchAction> = Vec::new();
    let mut stage = spawn_embedded_backend();
    loop {
        let action = launch_action(site, &stage);
        if action == LaunchAction::Done {
            return (stage, actions);
        }
        assert!(actions.len() < 10);
        let event = perform(world, &action);
        actions.push(action);
        stage = launch_step(site, stage, event);
    }
}

fn action_names(actions: &[LaunchAction]) -> Vec<&'static str> {
    actions
        .iter()
        .map(|a| match a {
            LaunchAction::ReconcileStale => "stale",
            LaunchAction::ReservePort => "port",
            LaunchAction::CreateDirectories { .. } => "directories",
            LaunchAction::ProbeRuntimeFiles { .. } => "runtime-files",
            LaunchAction::Probe { .. } => "probe",
            LaunchAction::CopyTemplate { .. } => "copy",
            LaunchAction::Spawn { .. } => "spawn",
            LaunchAction::QueryStartSignature { .. } => "signature",
            LaunchAction::Done => "done",
        })
        .collect()
}

fn failure(stage: LaunchStage) -> SupervisorError {
    match stage {
        LaunchStage::Failed { error } => error,
        other => panic!("the launch did not fail: {:?}", other),
    }
}

#[test]
fn bootstrap_config_created_only_for_first_run_without_db() {
    assert!(should_create_bootstrap_config(false, false));
    assert!(!should_create_bootstrap_config(true, false));
    assert!(!should_create_bootstrap_config(false, true));
    assert!(!should_create_bootstrap_config(true, true));
}

#[test]
fn first_existing_takes_the_first_that_exists() {
    assert_eq!(resolve_first_existing(&Vec::new()), None);
    assert_eq!(resolve_first_existing(&vec![probe("/a", false)]), None);
    assert_eq!(resolve_first_existing(&vec![probe("/a", true)]), Some("/a".to_string()));
    assert_eq!(
        resolve_first_existing(&vec![probe("/a", false), probe("/b", true), probe("/c", true)]),
        Some("/b".to_string())
    );
    assert_eq!(
        resolve_first_existing(&vec![probe("/a", false), probe("/b", false), probe("/c", true)]),
        Some("/c".to_string())
    );
    assert_eq!(resolve_first_existing(&vec![probe("/a", false), probe("/b", false)]), None);
}

#[test]
fn runtime_directories_come_in_order() {
    let (steps, paths) = ensure_user_runtime_files("/home/u/.oko");
    assert_eq!(
        steps,
        vec![
            step("/home/u/.oko", DirectoryPurpose::Runtime),
            step("/home/u/.oko/data", DirectoryPurpose::Database),
            step("/home/u/.oko/data", DirectoryPurpose::Data),
            step("/home/u/.oko/logs", DirectoryPurpose::Log),
        ]
    );
    assert_eq!(paths, runtime_paths("/home/u/.oko"));
    assert_eq!(paths.runtime_dir, "/home/u/.oko");
    assert_eq!(paths.config_path, "/home/u/.oko/dashboard.yaml");
    assert_eq!(paths.db_file, "/home/u/.oko/data/dashboard.sqlite3");
    assert_eq!(paths.lan_result_file, "/home/u/.oko/data/lan_scan_result.json");
    assert_eq!(paths.backend_log_file, "/home/u/.oko/logs/backend.log");
}

#[test]
fn directory_errors_name_the_directory() {
    let cases = [
        (DirectoryPurpose::Runtime, "Failed to create runtime dir: denied"),
        (DirectoryPurpose::Database, "Failed to create runtime DB dir: denied"),
        (DirectoryPurpose::Data, "Failed to create runtime data dir: denied"),
        (DirectoryPurpose::Log, "Failed to create backend log dir: denied"),
    ];
    for (purpose, message) in cases {
        assert_eq!(directory_error(purpose, "denied".to_string()).message(), message);
    }
    assert_eq!(
        directory_error(DirectoryPurpose::Log, "x".to_string()),
        SupervisorError::CreateLogDir { detail: "x".to_string() }
    );
}

#[test]
fn port_errors_name_the_part_that_failed() {
    assert_eq!(
        port_error(PortStage::Reserve, "in use".to_string()),
        SupervisorError::ReservePort { detail: "in use".to_string() }
    );
    assert_eq!(
        port_error(PortStage::Read, "gone".to_string()),
        SupervisorError::ReadPort { detail: "gone".to_string() }
    );
    assert_eq!(port_error(PortStage::Reserve, "in use".to_string()).message(), "Failed to reserve local port: in use");
    assert_eq!(port_error(PortStage::Read, "gone".to_string()).message(), "Failed to read local port: gone");
}

#[test]
fn spawn_errors_name_the_part_that_failed() {
    let log = "/home/u/.oko/logs/backend.log";
    assert_eq!(
        spawn_error(SpawnStage::OpenLog, log.to_string(), "denied".to_string()).message(),
        "Failed to open backend log file /home/u/.oko/logs/backend.log: denied"
    );
    assert_eq!(
        spawn_error(SpawnStage::CloneLog, log.to_string(), "denied".to_string()).message(),
        "Failed to clone backend log handle /home/u/.oko/logs/backend.log: denied"
    );
    assert_eq!(
        spawn_error(SpawnStage::Start, log.to_string(), "denied".to_string()),
        SupervisorError::Spawn { detail: "denied".to_string() }
    );
    assert_eq!(
        spawn_error(SpawnStage::Start, log.to_string(), "denied".to_string()).message(),
        "Failed to start embedded backend: denied"
    );
}

#[test]
fn launch_begins_with_the_stale_check() {
    let stage = spawn_embedded_backend();
    assert_eq!(stage, LaunchStage::CheckingStale);
    assert_eq!(launch_action(&site(), &stage), LaunchAction::ReconcileStale);
    assert_eq!(launch_step(&site(), stage, LaunchEvent::StaleChecked), LaunchStage::ReservingPort);
}

#[test]
fn first_run_copies_the_template_and_starts_the_binary() {
    let mut w = world(&[BUNDLED_TEMPLATE, BUNDLED_BINARY]);
    let (end, actions) = run_launch(&site(), &mut w);
    assert_eq!(
        action_names(&actions),
        vec!["stale", "port", "directories", "runtime-files", "probe", "copy", "probe", "spawn", "signature"]
    );
    assert_eq!(
        actions[4],
        LaunchAction::Probe {
            candidates: texts(&[
                BUNDLED_TEMPLATE,
                "/w/src/frontend/../../dashboard.yaml",
                "/w/src/frontend/../dashboard.yaml",
                "/w/src/frontend/dashboard.yaml",
            ])
        }
    );
    assert_eq!(
        actions[5],
        LaunchAction::CopyTemplate {
            from: BUNDLED_TEMPLATE.to_string(),
            to: "/home/u/.oko/dashboard.yaml".to_string()
        }
    );
    assert_eq!(actions[6], LaunchAction::Probe { candidates: texts(&[BUNDLED_BINARY]) });
    let paths = runtime_paths("/home/u/.oko");
    assert_eq!(
        actions[7],
        LaunchAction::Spawn {
            plan: plan_launch(50123, &paths, SpawnStrategy::Binary { path: BUNDLED_BINARY.to_string() })
        }
    );
    assert_eq!(actions[8], LaunchAction::QueryStartSignature { pid: 4711 });
    assert_eq!(
        end,
        LaunchStage::Started {
            backend: EmbeddedBackend { pid: 4711, api_base_url: "http://127.0.0.1:50123".to_string() },
            record: BackendPidRecord {
                pid: 4711,
                started_at: Some(START.to_string()),
                command_hint: Some(BUNDLED_BINARY.to_string()),
            },
        }
    );
}

#[test]
fn later_runs_copy_nothing() {
    for existing in [
        vec!["/home/u/.oko/dashboard.yaml", BUNDLED_BINARY],
        vec!["/home/u/.oko/data/dashboard.sqlite3", BUNDLED_BINARY],
        vec!["/home/u/.oko/dashboard.yaml", "/home/u/.oko/data/dashboard.sqlite3", BUNDLED_BINARY],
    ] {
        let mut w = world(&existing);
        let (end, actions) = run_launch(&site(), &mut w);
        assert_eq!(
            action_names(&actions),
            vec!["stale", "port", "directories", "runtime-files", "probe", "spawn", "signature"]
        );
        assert_eq!(
            actions[3],
            LaunchAction::ProbeRuntimeFiles {
                config_path: "/home/u/.oko/dashboard.yaml".to_string(),
                db_file: "/home/u/.oko/data/dashboard.sqlite3".to_string(),
            }
        );
        assert!(matches!(end, LaunchStage::Started { .. }));
    }
}

#[test]
fn first_run_without_template_fails_before_anything_is_started() {
    let mut w = world(&[BUNDLED_BINARY]);
    let (end, actions) = run_launch(&site(), &mut w);
    assert_eq!(action_names(&actions), vec!["stale", "port", "directories", "runtime-files", "probe"]);
    let error = failure(end);
    assert_eq!(error, SupervisorError::TemplateNotFound);
    assert_eq!(error.message(), "Default dashboard template not found for first desktop run");
}

#[test]
fn failed_copy_ends_the_launch() {
    let mut w = world(&[BUNDLED_TEMPLATE, BUNDLED_BINARY]);
    w.copy_fails = true;
    let (end, actions) = run_launch(&site(), &mut w);
    assert_eq!(action_names(&actions), vec!["stale", "port", "directories", "runtime-files", "probe", "copy"]);
    let error = failure(end);
    assert_eq!(
        error,
        SupervisorError::CopyTemplate { template: BUNDLED_TEMPLATE.to_string(), detail: "disk full".to_string() }
    );
    assert_eq!(
        error.message(),
        "Failed to create user dashboard config from template /res/resources/dashboard.default.yaml: disk full"
    );
}

#[test]
fn explicit_binary_and_template_come_first() {
    let mut s = site();
    s.explicit_binary = Some("/x/my-backend".to_string());
    s.explicit_template = Some("/x/my.yaml".to_string());
    let mut w = world(&["/x/my.yaml", BUNDLED_TEMPLATE, "/x/my-backend", BUNDLED_BINARY]);
    let (end, actions) = run_launch(&s, &mut w);
    assert_eq!(
        actions[5],
        LaunchAction::CopyTemplate { from: "/x/my.yaml".to_string(), to: "/home/u/.oko/dashboard.yaml".to_string() }
    );
    assert_eq!(actions[6], LaunchAction::Probe { candidates: texts(&["/x/my-backend", BUNDLED_BINARY]) });
    match end {
        LaunchStage::Started { record, .. } => assert_eq!(record.command_hint, Some("/x/my-backend".to_string())),
        other => panic!("the launch did not succeed: {:?}", other),
    }
}

#[test]
fn explicit_binary_that_does_not_exist_is_passed_over() {
    let mut s = site();
    s.explicit_binary = Some("/x/my-backend".to_string());
    let mut w = world(&["/home/u/.oko/dashboard.yaml", BUNDLED_BINARY]);
    let (end, _) = run_launch(&s, &mut w);
    match end {
        LaunchStage::Started { record, .. } => assert_eq!(record.command_hint, Some(BUNDLED_BINARY.to_string())),
        other => panic!("the launch did not succeed: {:?}", other),
    }
}

#[test]
fn development_script_is_the_fallback() {
    let script = "/w/src/frontend/../../src/desktop/backend_sidecar.py";
    let mut w = world(&["/home/u/.oko/dashboard.yaml", script]);
    w.start_signature = None;
    let (end, actions) = run_launch(&site(), &mut w);
    assert_eq!(
        action_names(&actions),
        vec!["stale", "port", "directories", "runtime-files", "probe", "probe", "spawn", "signature"]
    );
    assert_eq!(
        actions[5],
        LaunchAction::Probe {
            candidates: texts(&[
                "/w/src/frontend/../desktop/backend_sidecar.py",
                script,
                "/w/src/frontend/src/desktop/backend_sidecar.py",
            ])
        }
    );
    let paths = runtime_paths("/home/u/.oko");
    let plan = plan_launch(50123, &paths, SpawnStrategy::DevScript { script: script.to_string() });
    assert_eq!(plan.program, "python3");
    assert_eq!(actions[6], LaunchAction::Spawn { plan });
    assert_eq!(
        end,
        LaunchStage::Started {
            backend: EmbeddedBackend { pid: 4711, api_base_url: "http://127.0.0.1:50123".to_string() },
            record: BackendPidRecord { pid: 4711, started_at: None, command_hint: Some(script.to_string()) },
        }
    );
}

#[test]
fn launch_fails_without_binary_and_script() {
    let mut w = world(&["/home/u/.oko/dashboard.yaml"]);
    let (end, actions) = run_launch(&site(), &mut w);
    assert_eq!(action_names(&actions), vec!["stale", "port", "directories", "runtime-files", "probe", "probe"]);
    let error = failure(end);
    assert_eq!(error, SupervisorError::BackendNotFound);
    assert_eq!(
        error.message(),
        "Embedded backend binary not found. Build sidecar and place it into src/frontend/src-tauri/binaries"
    );

    let mut bare = site();
    bare.resource_dir = None;
    bare.working_dir = None;
    let mut w = world(&["/home/u/.oko/dashboard.yaml"]);
    let (end, actions) = run_launch(&bare, &mut w);
    assert_eq!(actions[4], LaunchAction::Probe { candidates: Vec::new() });
    assert_eq!(actions[5], LaunchAction::Probe { candidates: Vec::new() });
    assert_eq!(failure(end), SupervisorError::BackendNotFound);
}

#[test]
fn port_failure_ends_the_launch_at_once() {
    for (port_stage, message) in [
        (PortStage::Reserve, "Failed to reserve local port: in use"),
        (PortStage::Read, "Failed to read local port: in use"),
    ] {
        let mut w = world(&[BUNDLED_TEMPLATE, BUNDLED_BINARY]);
        w.port = Err((port_stage, "in use"));
        let (end, actions) = run_launch(&site(), &mut w);
        assert_eq!(action_names(&actions), vec!["stale", "port"]);
        assert_eq!(failure(end).message(), message);
    }
}

#[test]
fn directory_failure_ends_the_launch() {
    let mut w = world(&[BUNDLED_TEMPLATE, BUNDLED_BINARY]);
    w.failing_directory = Some(DirectoryPurpose::Data);
    let (end, actions) = run_launch(&site(), &mut w);
    assert_eq!(action_names(&actions), vec!["stale", "port", "directories"]);
    assert_eq!(failure(end), SupervisorError::CreateDataDir { detail: "denied".to_string() });
}

#[test]
fn spawn_failure_leaves_neither_handle_nor_record() {
    for (spawn_stage, message) in [
        (SpawnStage::OpenLog, "Failed to open backend log file /home/u/.oko/logs/backend.log: refused"),
        (SpawnStage::CloneLog, "Failed to clone backend log handle /home/u/.oko/logs/backend.log: refused"),
        (SpawnStage::Start, "Failed to start embedded backend: refused"),
    ] {
        let mut w = world(&["/home/u/.oko/dashboard.yaml", BUNDLED_BINARY]);
        w.spawn = Err(spawn_stage);
        let (end, actions) = run_launch(&site(), &mut w);
        assert_eq!(
            action_names(&actions),
            vec!["stale", "port", "directories", "runtime-files", "probe", "spawn"]
        );
        assert_eq!(failure(end).message(), message);
    }
}

#[test]
fn report_that_answers_nothing_leaves_the_stage() {
    let s = site();
    let stages = [
        LaunchStage::CheckingStale,
        LaunchStage::ReservingPort,
        LaunchStage::CreatingDirectories { port: 1 },
        LaunchStage::ProbingRuntimeFiles { port: 1 },
        LaunchStage::CopyingTemplate { port: 1, template: "/t".to_string() },
        LaunchStage::Spawning { port: 1, strategy: SpawnStrategy::Binary { path: "/b".to_string() } },
    ];
    for stage in stages {
        let event = LaunchEvent::StartSignatureRead { value: Some(START.to_string()) };
        assert_eq!(launch_step(&s, stage.clone(), event), stage);
    }
    let waiting = LaunchStage::ReadingStartSignature {
        port: 1,
        strategy: SpawnStrategy::Binary { path: "/b".to_string() },
        pid: 9,
    };
    let after = launch_step(&s, waiting, LaunchEvent::Spawned { pid: 10 });
    assert_eq!(
        after,
        LaunchStage::ReadingStartSignature {
            port: 1,
            strategy: SpawnStrategy::Binary { path: "/b".to_string() },
            pid: 9
        }
    );
}

#[test]
fn ended_launch_stays_as_it_ended() {
    let s = site();
    let failed = LaunchStage::Failed { error: SupervisorError::BackendNotFound };
    assert_eq!(launch_action(&s, &failed), LaunchAction::Done);
    assert_eq!(
        launch_step(&s, failed, LaunchEvent::Spawned { pid: 1 }),
        LaunchStage::Failed { error: SupervisorError::BackendNotFound }
    );
    let started = LaunchStage::Started {
        backend: EmbeddedBackend { pid: 1, api_base_url: "http://127.0.0.1:2".to_string() },
        record: BackendPidRecord { pid: 1, started_at: None, command_hint: None },
    };
    assert_eq!(launch_action(&s, &started), LaunchAction::Done);
    assert_eq!(
        launch_step(&s, started, LaunchEvent::StaleChecked),
        LaunchStage::Started {
            backend: EmbeddedBackend { pid: 1, api_base_url: "http://127.0.0.1:2".to_string() },
            record: BackendPidRecord { pid: 1, started_at: None, command_hint: None },
        }
    );
}

#[test]
fn report_on_other_paths_than_asked_is_not_taken() {
    let s = site();
    let stage = LaunchStage::ProbingBinaries { port: 7 };
    let forged = LaunchEvent::Probed { probes: vec![probe("/usr/bin/anything", true)] };
    assert_eq!(launch_step(&s, stage, forged), LaunchStage::ProbingBinaries { port: 7 });

    let stage = LaunchStage::ProbingBinaries { port: 7 };
    let short = LaunchEvent::Probed { probes: Vec::new() };
    assert_eq!(launch_step(&s, stage, short), LaunchStage::ProbingBinaries { port: 7 });

    let stage = LaunchStage::ProbingBinaries { port: 7 };
    let honest = LaunchEvent::Probed { probes: vec![probe(BUNDLED_BINARY, true)] };
    assert_eq!(
        launch_step(&s, stage, honest),
        LaunchStage::Spawning { port: 7, strategy: SpawnStrategy::Binary { path: BUNDLED_BINARY.to_string() } }
    );

    let stage = LaunchStage::ProbingTemplates { port: 7 };
    let forged = LaunchEvent::Probed { probes: vec![probe("/etc/passwd", true)] };
    assert_eq!(launch_step(&s, stage, forged), LaunchStage::ProbingTemplates { port: 7 });

    let stage = LaunchStage::ProbingScripts { port: 7 };
    let forged = LaunchEvent::Probed { probes: vec![probe("/tmp/evil.py", true)] };
    assert_eq!(launch_step(&s, stage, forged), LaunchStage::ProbingScripts { port: 7 });
}
