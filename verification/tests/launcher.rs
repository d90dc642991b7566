use local_cluster::launch::{
    build_command_line, build_launch_args, get_node_bin_path, node_bin_path_from, plan_launch,
    settle_seconds, verbosity_arg, LaunchSettings, SETTLE_FACTOR,
};
use local_cluster::launcher::{LaunchAction, LaunchEvent, LaunchPhase, Launcher};

fn home() -> Option<String> {
    Some("/home/alice".to_string())
}

fn standard() -> Launcher {
    Launcher::with_home(LaunchSettings::standard(false), home())
}

/// A launch whose working directory was removed and made anew.
fn after_reset(mut launcher: Launcher) -> (Launcher, LaunchAction) {
    assert!(matches!(launcher.step(LaunchEvent::Start), LaunchAction::RemoveDir { .. }));
    assert!(matches!(
        launcher.step(LaunchEvent::DirRemoved { outcome: Ok(()) }),
        LaunchAction::CreateDir { .. }
    ));
    let action = launcher.step(LaunchEvent::DirCreated { outcome: Ok(()) });
    (launcher, action)
}

fn expected_command_line() -> Vec<String> {
    [
        "sn_launch_tool",
        "-v",
        "--node-path",
        "./target/release/sn_node",
        "--nodes-dir",
        "/home/alice/.safe/node/local-test-network",
        "--interval",
        "3",
        "--local",
        "-yyyy",
    ]
    .iter()
    .map(|s| s.to_string())
    .collect()
}

#[test]
fn verbosity_zero_gives_no_flag() {
    let args = build_launch_args("exe", "dir", 3, 0);
    assert_eq!(
        args,
        vec!["-v", "--node-path", "exe", "--nodes-dir", "dir", "--interval", "3", "--local"]
    );
    assert!(!args.iter().any(|a| a.starts_with("-y")));
}

#[test]
fn verbosity_k_gives_a_flag_of_k_markers() {
    for k in 1usize..=40 {
        let args = build_launch_args("exe", "dir", 3, k);
        assert_eq!(args.len(), 9);
        let flag = &args[8];
        assert_eq!(flag.len(), k + 1);
        assert!(flag.starts_with('-'));
        assert!(flag[1..].chars().all(|c| c == 'y'));
        assert_eq!(*flag, format!("-{}", "y".repeat(k)));
        assert_eq!(args[..8], build_launch_args("exe", "dir", 3, 0)[..]);
    }
}

#[test]
fn verbosity_argument_alone() {
    assert_eq!(verbosity_arg(0), "-");
    assert_eq!(verbosity_arg(1), "-y");
    assert_eq!(verbosity_arg(4), "-yyyy");
}

#[test]
fn interval_is_written_in_decimal() {
    let args = build_launch_args("exe", "dir", 120, 0);
    assert_eq!(args[5], "--interval");
    assert_eq!(args[6], "120");
}

#[test]
fn command_line_starts_with_the_name_of_the_tool() {
    let line = build_command_line(vec!["a".to_string(), "b".to_string()]);
    assert_eq!(line, vec!["sn_launch_tool", "a", "b"]);
    assert_eq!(build_command_line(Vec::new()), vec!["sn_launch_tool"]);
}

#[test]
fn settle_time_is_fifteen_intervals() {
    assert_eq!(SETTLE_FACTOR, 15);
    assert_eq!(settle_seconds(3), Some(45));
    assert_eq!(settle_seconds(0), Some(0));
    assert_eq!(settle_seconds(u64::MAX / 15), Some(u64::MAX / 15 * 15));
    assert_eq!(settle_seconds(u64::MAX / 15 + 1), None);
    assert_eq!(settle_seconds(u64::MAX), None);
}

#[test]
fn given_node_path_is_taken() {
    let given = Some("./target/release".to_string());
    assert_eq!(node_bin_path_from(given.clone(), home()), Ok("./target/release".to_string()));
    assert_eq!(node_bin_path_from(given.clone(), None), Ok("./target/release".to_string()));
    assert_eq!(get_node_bin_path(given), Ok("./target/release".to_string()));
}

#[test]
fn default_node_path_lies_below_the_home_directory() {
    assert_eq!(node_bin_path_from(None, home()), Ok("/home/alice/.safe/node".to_string()));
    assert_eq!(
        node_bin_path_from(None, Some("/home/alice/".to_string())),
        Ok("/home/alice/.safe/node".to_string())
    );
}

#[test]
fn without_a_home_directory_there_is_no_default_node_path() {
    assert_eq!(
        node_bin_path_from(None, None),
        Err("Failed to obtain user's home path".to_string())
    );
}

#[test]
fn default_node_path_of_this_user() {
    match get_node_bin_path(None) {
        Ok(path) => assert!(path.ends_with(".safe/node"), "{}", path),
        Err(message) => assert_eq!(message, "Failed to obtain user's home path"),
    }
}

#[test]
fn settings_refuse_an_interval_that_overflows() {
    assert!(LaunchSettings::new(None, "sn_node", u64::MAX, 0).is_none());
    assert!(LaunchSettings::new(None, "sn_node", u64::MAX / 15 + 1, 0).is_none());
    let settings = LaunchSettings::new(None, "sn_node", u64::MAX / 15, 2).unwrap();
    assert_eq!(settings.interval(), u64::MAX / 15);
    assert_eq!(settings.verbosity(), 2);
    assert_eq!(settings.node_path(), None);
    assert_eq!(settings.executable(), "sn_node");
}

#[test]
fn standard_settings() {
    let settings = LaunchSettings::standard(false);
    assert_eq!(settings.node_path(), Some("./target/release".to_string()));
    assert_eq!(settings.executable(), "sn_node");
    assert_eq!(settings.interval(), 3);
    assert_eq!(settings.verbosity(), 4);
    assert_eq!(LaunchSettings::standard(true).executable(), "sn_node.exe");
}

#[test]
fn plan_of_the_standard_launch() {
    let plan = plan_launch(&LaunchSettings::standard(false), home()).unwrap();
    assert_eq!(plan.executable, "./target/release/sn_node");
    assert_eq!(plan.data_dir, "/home/alice/.safe/node/local-test-network");
    assert_eq!(plan.command_line, expected_command_line());
    assert_eq!(plan.settle_secs, 45);
}

#[test]
fn plan_without_a_given_node_path() {
    let settings = LaunchSettings::new(None, "sn_node.exe", 1, 0).unwrap();
    let plan = plan_launch(&settings, home()).unwrap();
    assert_eq!(plan.executable, "/home/alice/.safe/node/sn_node.exe");
    assert_eq!(plan.settle_secs, 15);
    assert_eq!(plan.command_line.len(), 9);
}

#[test]
fn plan_needs_a_home_directory_even_with_a_given_node_path() {
    let plan = plan_launch(&LaunchSettings::standard(false), None);
    assert_eq!(plan.err(), Some("Failed to obtain user's home path".to_string()));
}

#[test]
fn launch_with_a_data_directory_that_exists() {
    let mut launcher = standard();
    assert_eq!(launcher.phase(), LaunchPhase::Idle);
    match launcher.step(LaunchEvent::Start) {
        LaunchAction::RemoveDir { path } => assert_eq!(path, "nodes"),
        other => panic!("{:?}", other),
    }
    assert_eq!(launcher.phase(), LaunchPhase::RemovingWorkDir);
    match launcher.step(LaunchEvent::DirRemoved { outcome: Ok(()) }) {
        LaunchAction::CreateDir { path } => assert_eq!(path, "nodes"),
        other => panic!("{:?}", other),
    }
    assert_eq!(launcher.phase(), LaunchPhase::CreatingWorkDir);
    match launcher.step(LaunchEvent::DirCreated { outcome: Ok(()) }) {
        LaunchAction::CheckDir { path } => {
            assert_eq!(path, "/home/alice/.safe/node/local-test-network")
        }
        other => panic!("{:?}", other),
    }
    assert_eq!(launcher.phase(), LaunchPhase::CheckingDataDir);
    match launcher.step(LaunchEvent::DirChecked { exists: true }) {
        LaunchAction::RunTool { command_line } => assert_eq!(command_line, expected_command_line()),
        other => panic!("{:?}", other),
    }
    assert_eq!(launcher.phase(), LaunchPhase::RunningTool);
    match launcher.step(LaunchEvent::ToolReturned { outcome: Ok(()) }) {
        LaunchAction::Settle { seconds } => assert_eq!(seconds, 45),
        other => panic!("{:?}", other),
    }
    assert!(matches!(launcher.step(LaunchEvent::Settled), LaunchAction::Finish));
    assert_eq!(launcher.phase(), LaunchPhase::Done);
    assert!(matches!(launcher.step(LaunchEvent::Start), LaunchAction::Rejected));
    assert_eq!(launcher.phase(), LaunchPhase::Done);
}

#[test]
fn launch_makes_a_missing_data_directory_first() {
    let (mut launcher, _) = after_reset(standard());
    match launcher.step(LaunchEvent::DirChecked { exists: false }) {
        LaunchAction::CreateDir { path } => {
            assert_eq!(path, "/home/alice/.safe/node/local-test-network")
        }
        other => panic!("{:?}", other),
    }
    assert_eq!(launcher.phase(), LaunchPhase::CreatingDataDir);
    // The tool is not run before the directory is reported.
    assert!(matches!(
        launcher.step(LaunchEvent::ToolReturned { outcome: Ok(()) }),
        LaunchAction::Rejected
    ));
    match launcher.step(LaunchEvent::DirCreated { outcome: Ok(()) }) {
        LaunchAction::RunTool { command_line } => assert_eq!(command_line, expected_command_line()),
        other => panic!("{:?}", other),
    }
}

#[test]
fn working_directory_that_cannot_be_removed_is_made_all_the_same() {
    let mut launcher = standard();
    launcher.step(LaunchEvent::Start);
    let gone = Err("No such file or directory (os error 2)".to_string());
    match launcher.step(LaunchEvent::DirRemoved { outcome: gone }) {
        LaunchAction::CreateDir { path } => assert_eq!(path, "nodes"),
        other => panic!("{:?}", other),
    }
    let denied = Err("Permission denied (os error 13)".to_string());
    let mut launcher = standard();
    launcher.step(LaunchEvent::Start);
    match launcher.step(LaunchEvent::DirRemoved { outcome: denied }) {
        LaunchAction::CreateDir { path } => assert_eq!(path, "nodes"),
        other => panic!("{:?}", other),
    }
    assert_eq!(launcher.phase(), LaunchPhase::CreatingWorkDir);
}

#[test]
fn working_directory_that_cannot_be_made_ends_the_launch() {
    let mut launcher = standard();
    launcher.step(LaunchEvent::Start);
    launcher.step(LaunchEvent::DirRemoved { outcome: Ok(()) });
    let denied = Err("Permission denied (os error 13)".to_string());
    match launcher.step(LaunchEvent::DirCreated { outcome: denied }) {
        LaunchAction::Fail { message } => {
            assert_eq!(message, "Cannot create nodes directory: Permission denied (os error 13)")
        }
        other => panic!("{:?}", other),
    }
    assert_eq!(launcher.phase(), LaunchPhase::Failed);
    assert!(matches!(
        launcher.step(LaunchEvent::DirCreated { outcome: Ok(()) }),
        LaunchAction::Rejected
    ));
}

#[test]
fn failure_to_make_the_data_directory_ends_the_launch() {
    let (mut launcher, _) = after_reset(standard());
    launcher.step(LaunchEvent::DirChecked { exists: false });
    let denied = Err("Permission denied (os error 13)".to_string());
    let event = LaunchEvent::DirCreated { outcome: denied };
    match launcher.step(event) {
        LaunchAction::Fail { message } => assert_eq!(
            message,
            "Couldn't create target path to store nodes' generated data: Permission denied (os error 13)"
        ),
        other => panic!("{:?}", other),
    }
    assert_eq!(launcher.phase(), LaunchPhase::Failed);
    assert!(matches!(
        launcher.step(LaunchEvent::DirCreated { outcome: Ok(()) }),
        LaunchAction::Rejected
    ));
    assert!(matches!(
        launcher.step(LaunchEvent::DirChecked { exists: true }),
        LaunchAction::Rejected
    ));
    assert_eq!(launcher.phase(), LaunchPhase::Failed);
}

#[test]
fn complaint_of_the_tool_ends_the_launch_without_settling() {
    let (mut launcher, _) = after_reset(standard());
    launcher.step(LaunchEvent::DirChecked { exists: true });
    match launcher.step(LaunchEvent::ToolReturned { outcome: Err("no such binary".to_string()) }) {
        LaunchAction::Fail { message } => assert_eq!(message, "no such binary"),
        other => panic!("{:?}", other),
    }
    assert_eq!(launcher.phase(), LaunchPhase::Failed);
    assert!(matches!(launcher.step(LaunchEvent::Settled), LaunchAction::Rejected));
}

#[test]
fn launch_without_a_home_directory_fails_after_the_reset() {
    let launcher = Launcher::with_home(LaunchSettings::standard(false), None);
    let (launcher, action) = after_reset(launcher);
    match action {
        LaunchAction::Fail { message } => assert_eq!(message, "Failed to obtain user's home path"),
        other => panic!("{:?}", other),
    }
    assert_eq!(launcher.phase(), LaunchPhase::Failed);
}

#[test]
fn launch_events_out_of_turn_change_nothing() {
    let mut launcher = standard();
    assert!(matches!(
        launcher.step(LaunchEvent::DirRemoved { outcome: Ok(()) }),
        LaunchAction::Rejected
    ));
    assert!(matches!(launcher.step(LaunchEvent::Settled), LaunchAction::Rejected));
    assert!(matches!(
        launcher.step(LaunchEvent::DirChecked { exists: true }),
        LaunchAction::Rejected
    ));
    assert_eq!(launcher.phase(), LaunchPhase::Idle);
    launcher.step(LaunchEvent::Start);
    assert!(matches!(launcher.step(LaunchEvent::Start), LaunchAction::Rejected));
    assert!(matches!(
        launcher.step(LaunchEvent::DirCreated { outcome: Ok(()) }),
        LaunchAction::Rejected
    ));
    assert!(matches!(
        launcher.step(LaunchEvent::ToolReturned { outcome: Ok(()) }),
        LaunchAction::Rejected
    ));
    assert_eq!(launcher.phase(), LaunchPhase::RemovingWorkDir);
}

#[test]
fn launcher_for_this_user_starts_idle() {
    let launcher = Launcher::new(LaunchSettings::standard(false));
    assert_eq!(launcher.phase(), LaunchPhase::Idle);
    assert_eq!(launcher.settings().interval(), 3);
    let (_launcher, action) = after_reset(launcher);
    match action {
        LaunchAction::CheckDir { path } => assert!(path.ends_with(".safe/node/local-test-network")),
        LaunchAction::Fail { message } => assert_eq!(message, "Failed to obtain user's home path"),
        other => panic!("{:?}", other),
    }
}

#[test]
fn launcher_plan_is_the_plan_of_its_settings() {
    let launcher = standard();
    let plan = launcher.plan().unwrap();
    assert_eq!(plan.command_line, expected_command_line());
    assert_eq!(plan.settle_secs, 45);
}
