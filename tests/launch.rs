use docker_starter_rust::launch::{exit_code, LaunchAction, LaunchEvent, LaunchFault, LaunchPhase, Launcher};

#[test]
fn exit_code_of_normal_exit() {
    assert_eq!(exit_code(Some(7)), 7);
    assert_eq!(exit_code(Some(0)), 0);
}

#[test]
fn exit_code_of_signal() {
    assert_eq!(exit_code(None), 1);
}

#[test]
fn launch_runs_in_order() {
    let mut l = Launcher::new();
    assert_eq!(l.phase, LaunchPhase::Ready);
    assert_eq!(l.handle(LaunchEvent::Begin), LaunchAction::Isolate);
    assert_eq!(l.handle(LaunchEvent::Isolated(0)), LaunchAction::CheckRoot);
    assert_eq!(l.handle(LaunchEvent::RootChecked(true)), LaunchAction::Spawn);
    assert_eq!(l.handle(LaunchEvent::Spawned(true)), LaunchAction::Wait);
    assert_eq!(l.handle(LaunchEvent::ChildExited(Some(7))), LaunchAction::Finish(7));
    assert_eq!(l.phase, LaunchPhase::Exited(7));
}

#[test]
fn launch_signal_gives_one() {
    let mut l = Launcher::new();
    l.handle(LaunchEvent::Begin);
    l.handle(LaunchEvent::Isolated(0));
    l.handle(LaunchEvent::RootChecked(true));
    l.handle(LaunchEvent::Spawned(true));
    assert_eq!(l.handle(LaunchEvent::ChildExited(None)), LaunchAction::Finish(1));
}

#[test]
fn second_begin_is_ignored() {
    let mut l = Launcher::new();
    assert_eq!(l.handle(LaunchEvent::Begin), LaunchAction::Isolate);
    assert_eq!(l.handle(LaunchEvent::Begin), LaunchAction::Ignore);
    assert_eq!(l.phase, LaunchPhase::Isolating);
    l.handle(LaunchEvent::Isolated(0));
    assert_eq!(l.handle(LaunchEvent::Begin), LaunchAction::Ignore);
    assert_eq!(l.phase, LaunchPhase::CheckingRoot);
}

#[test]
fn spawn_before_isolation_is_ignored() {
    let mut l = Launcher::new();
    assert_eq!(l.handle(LaunchEvent::Spawned(true)), LaunchAction::Ignore);
    assert_eq!(l.handle(LaunchEvent::RootChecked(true)), LaunchAction::Ignore);
    assert_eq!(l.phase, LaunchPhase::Ready);
}

#[test]
fn isolation_failure_is_fatal() {
    let mut l = Launcher::new();
    l.handle(LaunchEvent::Begin);
    let a = l.handle(LaunchEvent::Isolated(-1));
    assert_eq!(a, LaunchAction::Stop(LaunchFault::IsolationFailed));
    assert!(LaunchFault::IsolationFailed.is_fatal());
    assert_eq!(l.handle(LaunchEvent::Isolated(0)), LaunchAction::Ignore);
}

#[test]
fn missing_root_is_fatal() {
    let mut l = Launcher::new();
    l.handle(LaunchEvent::Begin);
    l.handle(LaunchEvent::Isolated(0));
    assert_eq!(l.handle(LaunchEvent::RootChecked(false)), LaunchAction::Stop(LaunchFault::RootMissing));
    assert!(LaunchFault::RootMissing.is_fatal());
}

#[test]
fn spawn_and_wait_failures_are_reported() {
    let mut l = Launcher::new();
    l.handle(LaunchEvent::Begin);
    l.handle(LaunchEvent::Isolated(0));
    l.handle(LaunchEvent::RootChecked(true));
    assert_eq!(l.handle(LaunchEvent::Spawned(false)), LaunchAction::Stop(LaunchFault::SpawnFailed));
    assert!(!LaunchFault::SpawnFailed.is_fatal());

    let mut l = Launcher::new();
    l.handle(LaunchEvent::Begin);
    l.handle(LaunchEvent::Isolated(0));
    l.handle(LaunchEvent::RootChecked(true));
    l.handle(LaunchEvent::Spawned(true));
    assert_eq!(l.handle(LaunchEvent::WaitError), LaunchAction::Stop(LaunchFault::WaitFailed));
    assert!(!LaunchFault::WaitFailed.is_fatal());
}

#[test]
fn new_launcher_is_not_isolated() {
    let l = Launcher::new();
    assert!(!l.isolated);
}

#[test]
fn second_launch_in_process_skips_isolation() {
    let mut first = Launcher::new();
    first.handle(LaunchEvent::Begin);
    first.handle(LaunchEvent::Isolated(0));
    assert!(first.isolated);
    first.handle(LaunchEvent::RootChecked(true));
    first.handle(LaunchEvent::Spawned(true));
    first.handle(LaunchEvent::ChildExited(Some(0)));

    let mut second = first.relaunch();
    assert_eq!(second.phase, LaunchPhase::Ready);
    assert!(second.isolated);
    assert_eq!(second.handle(LaunchEvent::Begin), LaunchAction::CheckRoot);
    assert_eq!(second.handle(LaunchEvent::RootChecked(true)), LaunchAction::Spawn);
    assert_eq!(second.handle(LaunchEvent::Spawned(true)), LaunchAction::Wait);
    assert_eq!(second.handle(LaunchEvent::ChildExited(Some(3))), LaunchAction::Finish(3));
}

#[test]
fn failed_isolation_is_not_recorded() {
    let mut l = Launcher::new();
    l.handle(LaunchEvent::Begin);
    l.handle(LaunchEvent::Isolated(-1));
    assert!(!l.isolated);
    assert_eq!(l.phase, LaunchPhase::Failed(LaunchFault::IsolationFailed));
}
