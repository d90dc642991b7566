use local_cluster::slot::ClusterSpec;
use local_cluster::supervisor::{message_for, stage_at, Directive, Stage, Supervisor};

fn stages_of(ordinal: usize) -> Vec<Stage> {
    let slot = ClusterSpec::local(3).slot(ordinal);
    let mut supervisor = Supervisor::new(&slot);
    let mut stages = Vec::new();
    let mut directive = supervisor.directive();
    loop {
        match directive {
            Directive::Perform { stage } => stages.push(stage),
            Directive::Finished => return stages,
            Directive::Abort { stage, message } => panic!("{:?} {}", stage, message),
        }
        directive = supervisor.report(true);
        assert!(stages.len() < 20);
    }
}

#[test]
fn genesis_stores_its_connection_info_before_it_runs() {
    assert_eq!(
        stages_of(0),
        vec![
            Stage::ConstructEngine,
            Stage::ShareEngine,
            Stage::BuildReceiver,
            Stage::ConstructNode,
            Stage::FetchConnectionInfo,
            Stage::PersistConnectionInfo,
            Stage::RunLoop,
        ]
    );
}

#[test]
fn joiner_runs_right_after_the_node_is_built() {
    for ordinal in [1, 2] {
        assert_eq!(
            stages_of(ordinal),
            vec![
                Stage::ConstructEngine,
                Stage::ShareEngine,
                Stage::BuildReceiver,
                Stage::ConstructNode,
                Stage::RunLoop,
            ]
        );
    }
}

#[test]
fn stage_by_place() {
    assert_eq!(stage_at(true, 0), Some(Stage::ConstructEngine));
    assert_eq!(stage_at(true, 4), Some(Stage::FetchConnectionInfo));
    assert_eq!(stage_at(true, 6), Some(Stage::RunLoop));
    assert_eq!(stage_at(true, 7), None);
    assert_eq!(stage_at(false, 4), Some(Stage::RunLoop));
    assert_eq!(stage_at(false, 5), None);
    assert_eq!(stage_at(false, usize::MAX), None);
}

#[test]
fn failure_to_build_the_node_ends_the_thread() {
    let slot = ClusterSpec::local(2).slot(1);
    let mut supervisor = Supervisor::new(&slot);
    assert!(!supervisor.is_genesis());
    supervisor.report(true);
    supervisor.report(true);
    let directive = supervisor.report(true);
    assert!(matches!(directive, Directive::Perform { stage: Stage::ConstructNode }));
    assert_eq!(supervisor.stages_done(), 3);
    match supervisor.report(false) {
        Directive::Abort { stage, message } => {
            assert_eq!(stage, Stage::ConstructNode);
            assert_eq!(message, "Unable to start vault Node");
        }
        other => panic!("{:?}", other),
    }
    // Nothing that is reported later gets the thread any further.
    for success in [true, false, true] {
        match supervisor.report(success) {
            Directive::Abort { stage, .. } => assert_eq!(stage, Stage::ConstructNode),
            other => panic!("{:?}", other),
        }
        assert_eq!(supervisor.stages_done(), 3);
    }
    assert!(matches!(supervisor.directive(), Directive::Abort { .. }));
}

#[test]
fn failure_to_fetch_the_genesis_info_has_its_message() {
    let slot = ClusterSpec::local(2).slot(0);
    let mut supervisor = Supervisor::new(&slot);
    assert!(supervisor.is_genesis());
    for _ in 0..4 {
        supervisor.report(true);
    }
    match supervisor.report(false) {
        Directive::Abort { stage, message } => {
            assert_eq!(stage, Stage::FetchConnectionInfo);
            assert_eq!(message, "Could not get genesis info");
        }
        other => panic!("{:?}", other),
    }
}

#[test]
fn messages_of_all_stages() {
    assert_eq!(message_for(Stage::ConstructEngine), "Unable to start vault Node");
    assert_eq!(message_for(Stage::ShareEngine), "Unable to start vault Node");
    assert_eq!(message_for(Stage::BuildReceiver), "Unable to start vault Node");
    assert_eq!(message_for(Stage::ConstructNode), "Unable to start vault Node");
    assert_eq!(message_for(Stage::FetchConnectionInfo), "Could not get genesis info");
    assert_eq!(message_for(Stage::PersistConnectionInfo), "Could not write genesis info");
    assert_eq!(message_for(Stage::RunLoop), "Node stopped with an error");
}

#[test]
fn reports_after_the_end_change_nothing() {
    let slot = ClusterSpec::local(2).slot(1);
    let mut supervisor = Supervisor::new(&slot);
    for _ in 0..5 {
        supervisor.report(true);
    }
    assert!(matches!(supervisor.directive(), Directive::Finished));
    assert_eq!(supervisor.stages_done(), 5);
    assert!(matches!(supervisor.report(false), Directive::Finished));
    assert!(matches!(supervisor.report(true), Directive::Finished));
    assert_eq!(supervisor.stages_done(), 5);
}
