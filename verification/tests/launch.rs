use system_manager_server::errors::LaunchError;
use system_manager_server::identity::Identity;
use system_manager_server::launch::{
    Launch, LaunchAction, LaunchEvent, LaunchState, EAGAIN, EMFILE, ENFILE, ENODEV, ENOENT,
    ENOMEM, ENOSPC, ENXIO,
};
use system_manager_server::launcher::{
    check_exited, child_plan, login_flag, usable_path, ChildOp, SessionHandle, Terminal,
    TerminalMode,
};
use system_manager_server::privilege::PrivilegeOp;

fn identity(groups: Vec<u32>, shell: &str) -> Identity {
    Identity::new(1000, 1000, groups, "/home/alice".to_string(), shell.to_string())
}

fn describe(op: &ChildOp) -> String {
    format!("{:?}", op)
}

#[test]
fn identity_keeps_what_it_was_given() {
    let identity = identity(vec![1000, 27], "/bin/sh");
    assert_eq!(identity.uid(), 1000);
    assert_eq!(identity.primary_gid(), 1000);
    assert_eq!(identity.supplementary_gids(), &vec![1000, 27]);
    assert_eq!(identity.home(), "/home/alice");
    assert_eq!(identity.shell(), "/bin/sh");
}

#[test]
fn child_of_a_terminal_takes_its_steps_in_order() {
    let plan = child_plan(&identity(vec![1000, 27], "/bin/sh"), TerminalMode::Pty);
    let described: Vec<String> = plan.iter().map(describe).collect();
    assert_eq!(
        described,
        vec![
            "NewSession",
            "OpenTerminal",
            "RedirectInput",
            "RedirectOutput",
            "RedirectErrors",
            "RawMode",
            "ControllingTerminal",
            "ChangeDirectory(\"/home/alice\")",
            "Privilege(SetGroups([1000, 27]))",
            "Privilege(SetGid(1000))",
            "Privilege(SetUid(1000))",
            "Execute { shell: \"/bin/sh\", login: true }",
        ]
    );
}

#[test]
fn child_of_pipes_opens_no_terminal() {
    let plan = child_plan(&identity(vec![5], "/usr/bin/fish"), TerminalMode::Pipes);
    let described: Vec<String> = plan.iter().map(describe).collect();
    assert_eq!(
        described,
        vec![
            "NewSession",
            "RedirectInput",
            "RedirectOutput",
            "RedirectErrors",
            "ChangeDirectory(\"/home/alice\")",
            "Privilege(SetGroups([5]))",
            "Privilege(SetGid(1000))",
            "Privilege(SetUid(1000))",
            "Execute { shell: \"/usr/bin/fish\", login: false }",
        ]
    );
}

#[test]
fn child_without_groups_clears_the_groups() {
    for mode in [TerminalMode::Pty, TerminalMode::Pipes] {
        let plan = child_plan(&identity(Vec::new(), "/bin/bash"), mode);
        let groups: Vec<&ChildOp> = plan
            .iter()
            .filter(|op| matches!(op, ChildOp::Privilege(PrivilegeOp::SetGroups(_))))
            .collect();
        assert_eq!(groups.len(), 1);
        assert!(
            matches!(groups[0], ChildOp::Privilege(PrivilegeOp::SetGroups(list)) if list.is_empty())
        );
        let setting_groups = plan
            .iter()
            .position(|op| matches!(op, ChildOp::Privilege(PrivilegeOp::SetGroups(_))))
            .expect("the groups are set");
        let setting_user = plan
            .iter()
            .position(|op| matches!(op, ChildOp::Privilege(PrivilegeOp::SetUid(_))))
            .expect("the user is set");
        assert!(setting_groups < setting_user);
    }
}

#[test]
fn every_step_fails_with_a_status_of_its_own() {
    let plan = child_plan(&identity(vec![1], "/bin/sh"), TerminalMode::Pty);
    let statuses: Vec<u8> = plan.iter().map(|op| op.status_on_failure()).collect();
    assert_eq!(statuses, vec![71, 72, 73, 74, 75, 76, 77, 78, 79, 80, 81, 82]);
    assert_eq!(ChildOp::Privilege(PrivilegeOp::SetEffectiveGid(1)).status_on_failure(), 80);
    assert_eq!(ChildOp::Privilege(PrivilegeOp::SetEffectiveUid(1)).status_on_failure(), 81);
}

#[test]
fn login_flag_goes_by_the_file_name() {
    assert!(login_flag("/bin/sh"));
    assert!(login_flag("/bin/bash"));
    assert!(login_flag("/usr/bin/zsh"));
    assert!(login_flag("dash"));
    assert!(login_flag("/opt/ksh"));
    assert!(!login_flag("/bin/fish"));
    assert!(!login_flag("/usr/sbin/nologin"));
    assert!(!login_flag("/bin/sh/"));
    assert!(!login_flag("/bin/bash2"));
    assert!(!login_flag(""));
    assert!(!login_flag("/sh/false"));
}

#[test]
fn paths_with_a_zero_character_are_not_usable() {
    assert!(usable_path("/bin/sh"));
    assert!(!usable_path(""));
    assert!(!usable_path("/bin/\0sh"));
    assert!(!usable_path("\0"));
}

#[test]
fn exit_check_goes_by_the_sign() {
    assert!(check_exited(4321));
    assert!(!check_exited(0));
    assert!(!check_exited(-1));
}

#[test]
fn handle_gives_up_each_descriptor_once() {
    let handle = SessionHandle::new(77, Terminal::Pty { master: 9 });
    assert_eq!(handle.pid(), 77);
    assert_eq!(handle.terminal(), Terminal::Pty { master: 9 });
    assert_eq!(handle.terminal().kind(), TerminalMode::Pty);
    assert_eq!(handle.release(), (77, vec![9]));
    let handle = SessionHandle::new(78, Terminal::Pipes { input: 4, output: 5, errors: 6 });
    assert_eq!(handle.terminal().kind(), TerminalMode::Pipes);
    assert_eq!(handle.release(), (78, vec![4, 5, 6]));
}

fn run(launch: &mut Launch, events: &[LaunchEvent]) -> Vec<LaunchAction> {
    let mut actions = vec![launch.command()];
    for event in events {
        let action = launch.step(*event);
        if action != LaunchAction::Wait {
            actions.push(action);
        }
    }
    actions
}

#[test]
fn launch_with_a_terminal_succeeds() {
    let mut launch = Launch::new(&identity(vec![1000, 27], "/bin/sh"));
    let terminal = Terminal::Pty { master: 7 };
    let actions = run(
        &mut launch,
        &[
            LaunchEvent::ShellChecked(true),
            LaunchEvent::PtyOpened(7),
            LaunchEvent::NonBlockingSet,
            LaunchEvent::Forked(4242),
            LaunchEvent::ChildReady,
        ],
    );
    assert_eq!(
        actions,
        vec![
            LaunchAction::CheckShell,
            LaunchAction::OpenPty,
            LaunchAction::SetNonBlocking(terminal),
            LaunchAction::Fork(terminal),
            LaunchAction::AwaitReady(4242),
            LaunchAction::Succeed,
        ]
    );
    assert_eq!(launch.state(), LaunchState::Succeeded);
    match launch.finish() {
        Ok(Ok(handle)) => {
            assert_eq!(handle.pid(), 4242);
            assert_eq!(handle.terminal(), terminal);
        }
        other => panic!("no handle: {:?}", other),
    }
}

#[test]
fn launch_falls_back_to_pipes() {
    let mut launch = Launch::new(&identity(Vec::new(), "/bin/sh"));
    let terminal = Terminal::Pipes { input: 3, output: 4, errors: 5 };
    let actions = run(
        &mut launch,
        &[
            LaunchEvent::ShellChecked(true),
            LaunchEvent::open_failure(ENOENT),
            LaunchEvent::PipesOpened(3, 4, 5),
            LaunchEvent::NonBlockingSet,
            LaunchEvent::Forked(9),
            LaunchEvent::ChildReady,
        ],
    );
    assert_eq!(
        actions,
        vec![
            LaunchAction::CheckShell,
            LaunchAction::OpenPty,
            LaunchAction::OpenPipes,
            LaunchAction::SetNonBlocking(terminal),
            LaunchAction::Fork(terminal),
            LaunchAction::AwaitReady(9),
            LaunchAction::Succeed,
        ]
    );
}

#[test]
fn shell_that_may_not_run_opens_nothing() {
    let mut launch = Launch::new(&identity(Vec::new(), "/bin/sh"));
    let actions = run(&mut launch, &[LaunchEvent::ShellChecked(false)]);
    assert_eq!(
        actions,
        vec![LaunchAction::CheckShell, LaunchAction::Fail(LaunchError::ShellNotExecutable)]
    );
    assert!(matches!(launch.finish(), Ok(Err(LaunchError::ShellNotExecutable))));
    let launch = Launch::new(&identity(Vec::new(), "bad\0shell"));
    assert_eq!(launch.state(), LaunchState::Failed);
    assert_eq!(launch.command(), LaunchAction::Fail(LaunchError::ShellNotExecutable));
}

#[test]
fn exhausted_terminals_fail_at_once() {
    let mut launch = Launch::new(&identity(Vec::new(), "/bin/sh"));
    let actions =
        run(&mut launch, &[LaunchEvent::ShellChecked(true), LaunchEvent::open_failure(ENOSPC)]);
    assert_eq!(
        actions,
        vec![
            LaunchAction::CheckShell,
            LaunchAction::OpenPty,
            LaunchAction::Fail(LaunchError::ResourceExhausted),
        ]
    );
}

#[test]
fn failed_fork_closes_the_terminal_first() {
    let mut launch = Launch::new(&identity(Vec::new(), "/bin/sh"));
    let terminal = Terminal::Pty { master: 7 };
    let actions = run(
        &mut launch,
        &[
            LaunchEvent::ShellChecked(true),
            LaunchEvent::PtyOpened(7),
            LaunchEvent::NonBlockingSet,
            LaunchEvent::ForkFailed(EAGAIN),
            LaunchEvent::Released,
        ],
    );
    assert_eq!(
        actions[4..],
        [
            LaunchAction::Release(Some(terminal), None),
            LaunchAction::Fail(LaunchError::ForkFailed(EAGAIN)),
        ]
    );
    assert!(matches!(launch.finish(), Ok(Err(LaunchError::ForkFailed(11)))));
}

#[test]
fn child_that_is_late_is_ended_and_waited_for() {
    let mut launch = Launch::new(&identity(Vec::new(), "/bin/sh"));
    let terminal = Terminal::Pty { master: 7 };
    let actions = run(
        &mut launch,
        &[
            LaunchEvent::ShellChecked(true),
            LaunchEvent::PtyOpened(7),
            LaunchEvent::NonBlockingSet,
            LaunchEvent::Forked(50),
            LaunchEvent::ChildTimedOut,
        ],
    );
    assert_eq!(actions.last(), Some(&LaunchAction::Release(Some(terminal), Some(50))));
    assert_eq!(launch.state(), LaunchState::Releasing);
    let launch = match launch.finish() {
        Err(launch) => launch,
        other => panic!("finished too early: {:?}", other),
    };
    let mut launch = launch;
    assert_eq!(launch.step(LaunchEvent::Released), LaunchAction::Fail(LaunchError::ReadyTimeout));
}

#[test]
fn child_that_failed_its_set_up_is_not_waited_for_again() {
    let mut launch = Launch::new(&identity(Vec::new(), "/bin/sh"));
    let terminal = Terminal::Pty { master: 7 };
    let actions = run(
        &mut launch,
        &[
            LaunchEvent::ShellChecked(true),
            LaunchEvent::PtyOpened(7),
            LaunchEvent::NonBlockingSet,
            LaunchEvent::Forked(50),
            LaunchEvent::ChildFailed(81),
            LaunchEvent::Released,
        ],
    );
    assert_eq!(
        actions[5..],
        [
            LaunchAction::Release(Some(terminal), None),
            LaunchAction::Fail(LaunchError::ChildSetupFailed(81)),
        ]
    );
}

#[test]
fn non_blocking_failure_releases_the_terminal() {
    let mut launch = Launch::new(&identity(Vec::new(), "/bin/sh"));
    let actions = run(
        &mut launch,
        &[
            LaunchEvent::ShellChecked(true),
            LaunchEvent::PtyOpened(7),
            LaunchEvent::NonBlockingFailed(9),
        ],
    );
    assert_eq!(
        actions.last(),
        Some(&LaunchAction::Release(Some(Terminal::Pty { master: 7 }), None))
    );
}

#[test]
fn launch_events_out_of_turn_change_nothing() {
    let mut launch = Launch::new(&identity(Vec::new(), "/bin/sh"));
    assert_eq!(launch.step(LaunchEvent::Forked(3)), LaunchAction::Wait);
    assert_eq!(launch.step(LaunchEvent::Released), LaunchAction::Wait);
    assert_eq!(launch.state(), LaunchState::CheckingShell);
}

#[test]
fn failures_to_open_are_classified() {
    for errno in [ENOENT, ENXIO, ENODEV] {
        assert_eq!(LaunchEvent::open_failure(errno), LaunchEvent::PtyUnavailable);
    }
    for errno in [EAGAIN, ENOMEM, ENFILE, EMFILE, ENOSPC] {
        assert_eq!(LaunchEvent::open_failure(errno), LaunchEvent::Exhausted);
    }
    assert_eq!(LaunchEvent::open_failure(13), LaunchEvent::OpenFailed(13));
    assert_eq!(LaunchEvent::open_failure(0), LaunchEvent::OpenFailed(0));
}

#[test]
fn error_numbers_are_those_of_the_system() {
    assert_eq!(ENOENT, libc::ENOENT);
    assert_eq!(ENXIO, libc::ENXIO);
    assert_eq!(EAGAIN, libc::EAGAIN);
    assert_eq!(ENOMEM, libc::ENOMEM);
    assert_eq!(ENODEV, libc::ENODEV);
    assert_eq!(ENFILE, libc::ENFILE);
    assert_eq!(EMFILE, libc::EMFILE);
    assert_eq!(ENOSPC, libc::ENOSPC);
}

#[test]
fn missing_device_for_pipes_fails_the_launch() {
    let mut launch = Launch::new(&identity(Vec::new(), "/bin/sh"));
    let actions = run(
        &mut launch,
        &[LaunchEvent::ShellChecked(true), LaunchEvent::PtyUnavailable, LaunchEvent::PtyUnavailable],
    );
    assert_eq!(actions.last(), Some(&LaunchAction::Fail(LaunchError::TerminalFailed(ENODEV))));
}

#[test]
fn report_of_the_child_is_read() {
    assert_eq!(LaunchEvent::readiness(0, -1, 0), LaunchEvent::ChildTimedOut);
    assert_eq!(LaunchEvent::readiness(-1, -1, 0), LaunchEvent::ChildTimedOut);
    assert_eq!(LaunchEvent::readiness(1, 1, 81), LaunchEvent::ChildFailed(81));
    assert_eq!(LaunchEvent::readiness(1, 0, 0), LaunchEvent::ChildReady);
    assert_eq!(LaunchEvent::readiness(1, -1, 0), LaunchEvent::ChildTimedOut);
}
