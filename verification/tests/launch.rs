use multi_group_mining::launch::{
    log_file_name, BinaryPath, SpawnAction, SpawnError, SpawnEvent, SpawnPlan, SpawnState,
};
use multi_group_mining::manager::MultiGroupXmrigManager;

fn plan(threads: u32) -> SpawnPlan {
    SpawnPlan {
        binary: BinaryPath {
            shown: "C:\\miner\\xmrig.exe".to_string(),
            argument: Some("C:\\miner\\xmrig.exe".to_string()),
        },
        cpu_threads_per_group: threads,
        connection_type_args: vec!["--daemon".to_string(), "--url=127.0.0.1:1".to_string()],
        extra_options: vec!["--randomx-1gb-pages".to_string()],
    }
}

fn manager(groups: u16) -> MultiGroupXmrigManager {
    let ports: Vec<u16> = (0..groups).map(|g| 9000 + g).collect();
    let tokens: Vec<String> = (0..groups).map(|g| format!("token{}", g)).collect();
    MultiGroupXmrigManager::with_tokens(ports, tokens)
}

fn log_ready(path: &str) -> SpawnEvent {
    SpawnEvent::LogDirectoryReady {
        log_path: Some(path.to_string()),
    }
}

/// Launches one group, which is the next one, and tells the arguments of its process wrapper.
fn launch_group(
    manager: &mut MultiGroupXmrigManager,
    plan: &SpawnPlan,
    state: SpawnState,
    pid: u32,
) -> (SpawnState, SpawnAction, Vec<String>) {
    let (state, action) = manager.spawn(plan, state, log_ready("log"));
    assert!(matches!(action, SpawnAction::FindWrapper));
    let (state, action) = manager.spawn(plan, state, SpawnEvent::WrapperFound { parent_pid: 4242 });
    let arguments = match action {
        SpawnAction::Launch { arguments, .. } => arguments,
        _ => panic!("a launch is due"),
    };
    let (state, action) = manager.spawn(plan, state, SpawnEvent::Launched { pid });
    (state, action, arguments)
}

#[test]
fn arguments_of_a_group() {
    let mut manager = manager(2);
    let plan = plan(32);
    let start = SpawnState::start();
    assert!(matches!(
        manager.spawn_action(&plan, &start),
        SpawnAction::CheckBinary
    ));
    let (state, action) = manager.spawn(&plan, start, SpawnEvent::BinaryChecked { exists: true });
    match action {
        SpawnAction::CreateLogDirectory { directory, file } => {
            assert_eq!(directory, "xmrig");
            assert_eq!(file, "xmrig_group0.log");
        }
        _ => panic!("the log directory comes first"),
    }
    let (state, action, arguments) = launch_group(&mut manager, &plan, state, 77);
    assert_eq!(
        arguments,
        vec![
            "--group",
            "0",
            "4242",
            "C:\\miner\\xmrig.exe",
            "--daemon",
            "--url=127.0.0.1:1",
            "--log-file=log",
            "--http-port=9000",
            "--http-access-token=token0",
            "--donate-level=1",
            "--threads=32",
            "--verbose",
            "--randomx-1gb-pages",
        ]
    );
    match action {
        SpawnAction::CreateLogDirectory { directory, file } => {
            assert_eq!(directory, "xmrig");
            assert_eq!(file, "xmrig_group1.log");
        }
        _ => panic!("the second group is due"),
    }
    let (_, _, arguments) = launch_group(&mut manager, &plan, state, 78);
    assert_eq!(arguments[1], "1");
    assert_eq!(arguments[7], "--http-port=9001");
    assert_eq!(arguments[8], "--http-access-token=token1");
}

#[test]
fn optional_arguments_are_left_out() {
    let mut manager = manager(1);
    let mut plan = plan(0);
    plan.binary.argument = None;
    plan.connection_type_args = vec![];
    plan.extra_options = vec![];
    let (state, _) = manager.spawn(
        &plan,
        SpawnState::start(),
        SpawnEvent::BinaryChecked { exists: true },
    );
    let (state, _) = manager.spawn(
        &plan,
        state,
        SpawnEvent::LogDirectoryReady { log_path: None },
    );
    let (_, action) = manager.spawn(&plan, state, SpawnEvent::WrapperFound { parent_pid: 0 });
    match action {
        SpawnAction::Launch { group, arguments } => {
            assert_eq!(group, 0);
            assert_eq!(
                arguments,
                vec![
                    "--group",
                    "0",
                    "0",
                    "",
                    "--http-port=9000",
                    "--http-access-token=token0",
                    "--donate-level=1",
                    "--verbose",
                ]
            );
        }
        _ => panic!("a launch is due"),
    }
}

#[test]
fn success_is_one_process_per_group() {
    let mut manager = manager(3);
    let plan = plan(1);
    let (mut state, _) = manager.spawn(
        &plan,
        SpawnState::start(),
        SpawnEvent::BinaryChecked { exists: true },
    );
    let mut last = SpawnAction::CheckBinary;
    for pid in [10, 11, 12] {
        let (next, action, _) = launch_group(&mut manager, &plan, state, pid);
        state = next;
        last = action;
    }
    assert!(matches!(state, SpawnState::Finished));
    match last {
        SpawnAction::Return { binary } => {
            assert_eq!(binary.shown, "C:\\miner\\xmrig.exe");
            assert_eq!(binary.argument, Some("C:\\miner\\xmrig.exe".to_string()));
        }
        _ => panic!("the path of the binary is handed back"),
    }
    assert_eq!(manager.get_pids(), vec![10, 11, 12]);
    let (state, _) = manager.spawn(&plan, state, SpawnEvent::Launched { pid: 13 });
    assert!(matches!(state, SpawnState::Finished));
    assert_eq!(manager.get_pids(), vec![10, 11, 12]);
}

#[test]
fn no_groups_need_only_the_binary() {
    let mut manager = manager(0);
    let (state, action) = manager.spawn(
        &plan(1),
        SpawnState::start(),
        SpawnEvent::BinaryChecked { exists: true },
    );
    assert!(matches!(state, SpawnState::Finished));
    assert!(matches!(action, SpawnAction::Return { .. }));
    assert!(manager.get_pids().is_empty());
}

#[test]
fn missing_binary_is_explained() {
    let mut manager = manager(1);
    let (state, action) = manager.spawn(
        &plan(1),
        SpawnState::start(),
        SpawnEvent::BinaryChecked { exists: false },
    );
    assert!(matches!(
        state,
        SpawnState::Failed {
            error: SpawnError::BinaryNotFound { .. }
        }
    ));
    match action {
        SpawnAction::Fail { message } => assert_eq!(
            message,
            "Xmrig binary not found at C:\\miner\\xmrig.exe. \n\nThis usually means antivirus software has quarantined the file. \nTo fix:\n1. Open your antivirus or Windows Defender security center\n2. Check 'Quarantine' or 'Protection history'\n3. Restore 'xmrig.exe' and add both 'xmrig.exe' and its directory to your antivirus exclusions"
        ),
        _ => panic!("the launch fails"),
    }
    assert!(manager.get_pids().is_empty());
}

#[test]
fn log_directory_failure_is_passed_on() {
    let mut manager = manager(1);
    let plan = plan(1);
    let (state, _) = manager.spawn(
        &plan,
        SpawnState::start(),
        SpawnEvent::BinaryChecked { exists: true },
    );
    let (state, action) = manager.spawn(
        &plan,
        state,
        SpawnEvent::LogDirectoryFailed {
            cause: "disk full".to_string(),
        },
    );
    assert!(matches!(
        state,
        SpawnState::Failed {
            error: SpawnError::LogDirectory { .. }
        }
    ));
    match action {
        SpawnAction::Fail { message } => assert_eq!(message, "disk full"),
        _ => panic!("the launch fails"),
    }
}

#[test]
fn missing_wrapper_is_told() {
    let mut manager = manager(1);
    let plan = plan(1);
    let (state, _) = manager.spawn(
        &plan,
        SpawnState::start(),
        SpawnEvent::BinaryChecked { exists: true },
    );
    let (state, _) = manager.spawn(&plan, state, log_ready("log"));
    let (state, action) = manager.spawn(&plan, state, SpawnEvent::WrapperMissing);
    assert!(matches!(
        state,
        SpawnState::Failed {
            error: SpawnError::WrapperNotInitialized
        }
    ));
    match action {
        SpawnAction::Fail { message } => assert_eq!(message, "Process wrapper not initialized"),
        _ => panic!("the launch fails"),
    }
}

#[test]
fn failed_launch_keeps_what_was_started() {
    let mut manager = manager(3);
    let plan = plan(1);
    let (state, _) = manager.spawn(
        &plan,
        SpawnState::start(),
        SpawnEvent::BinaryChecked { exists: true },
    );
    let (state, _, _) = launch_group(&mut manager, &plan, state, 500);
    let (state, _) = manager.spawn(&plan, state, log_ready("log"));
    let (state, _) = manager.spawn(&plan, state, SpawnEvent::WrapperFound { parent_pid: 1 });
    let (state, action) = manager.spawn(
        &plan,
        state,
        SpawnEvent::LaunchFailed {
            cause: "access denied".to_string(),
        },
    );
    assert!(matches!(
        state,
        SpawnState::Failed {
            error: SpawnError::LaunchFailed { group: 1, .. }
        }
    ));
    match action {
        SpawnAction::Fail { message } => {
            assert_eq!(message, "Failed to spawn xmrig on group 1: access denied")
        }
        _ => panic!("the launch fails"),
    }
    assert_eq!(manager.get_pids(), vec![500]);
    assert_eq!(manager.stop().pids, vec![500]);
}

#[test]
fn answers_to_other_questions_change_nothing() {
    let mut manager = manager(1);
    let plan = plan(1);
    let (state, action) = manager.spawn(
        &plan,
        SpawnState::start(),
        SpawnEvent::Launched { pid: 9 },
    );
    assert!(matches!(state, SpawnState::CheckBinary));
    assert!(matches!(action, SpawnAction::CheckBinary));
    assert!(manager.get_pids().is_empty());
}

#[test]
fn log_files_are_distinct() {
    assert_eq!(log_file_name(0), "xmrig_group0.log");
    assert_eq!(log_file_name(9), "xmrig_group9.log");
    assert_eq!(log_file_name(10), "xmrig_group10.log");
    assert_eq!(log_file_name(12345), "xmrig_group12345.log");
}
