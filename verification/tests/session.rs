use system_manager_server::bridge::{Bridge, BridgeOutcome, Frame};
use system_manager_server::gate::Gate;
use system_manager_server::identity::Identity;
use system_manager_server::launch::{Launch, LaunchEvent};
use system_manager_server::launcher::{child_plan, TerminalMode};
use system_manager_server::wire::{closing_frames, Reply};
use system_manager_server::errors::{
    BridgeError, LaunchError, PrivilegeError, ProtocolViolation, SessionError,
};
use system_manager_server::session::{Action, Capability, Event, Session, SessionState, Stage};

fn run(session: &mut Session, events: &[Event]) -> Vec<Action> {
    let mut actions = vec![session.command()];
    for event in events {
        let action = session.step(*event);
        if action != Action::Wait {
            actions.push(action);
        }
    }
    actions
}

fn count(actions: &[Action], wanted: Action) -> usize {
    actions.iter().filter(|action| **action == wanted).count()
}

#[test]
fn capability_names_are_read_with_and_without_slash() {
    assert_eq!(Capability::parse("shell"), Capability::Shell);
    assert_eq!(Capability::parse("/shell"), Capability::Shell);
    assert_eq!(Capability::parse("/status"), Capability::Status);
    assert_eq!(Capability::parse("/status/power"), Capability::StatusPower);
    assert_eq!(Capability::parse("/status/storage"), Capability::StatusStorage);
    assert_eq!(Capability::parse("/settings/pull"), Capability::SettingsPull);
    assert_eq!(Capability::parse("/settings/push"), Capability::SettingsPush);
    assert_eq!(Capability::parse("/plugin/clock"), Capability::Plugin);
    assert_eq!(Capability::parse("/update/all"), Capability::Update);
    assert_eq!(Capability::parse("/manage/users"), Capability::Manage);
    assert_eq!(Capability::parse("//shell"), Capability::Unknown);
    assert_eq!(Capability::parse("Shell"), Capability::Unknown);
    assert_eq!(Capability::parse("shell "), Capability::Unknown);
    assert_eq!(Capability::parse(""), Capability::Unknown);
    assert_eq!(Capability::parse("/"), Capability::Unknown);
    assert_eq!(Capability::parse("/plugin"), Capability::Unknown);
}

#[test]
fn shell_session_walks_through_every_stage() {
    let mut session = Session::new(true, false);
    assert_eq!(session.state(), SessionState::AwaitingCapability);
    let actions = run(
        &mut session,
        &[
            Event::Request(Capability::Shell),
            Event::GateAcquired,
            Event::Assumed,
            Event::Launched,
            Event::BridgeEnded(BridgeOutcome::ChildExited),
            Event::Restored,
            Event::GateReleased,
            Event::CloseSent,
        ],
    );
    assert_eq!(
        actions,
        vec![
            Action::Receive,
            Action::AcquireGate,
            Action::Assume,
            Action::Launch,
            Action::Bridge,
            Action::Restore,
            Action::ReleaseGate,
            Action::Close(None),
            Action::Stop,
        ]
    );
    assert_eq!(session.state(), SessionState::Closed);
    assert_eq!(session.result(), Some(Ok(())));
}

#[test]
fn unresolved_identity_never_asks_for_admission() {
    let mut session = Session::new(false, false);
    let actions = run(&mut session, &[Event::Request(Capability::Shell), Event::CloseSent]);
    let error = SessionError::Launch(LaunchError::IdentityUnresolved);
    assert_eq!(actions, vec![Action::Receive, Action::Close(Some(error)), Action::Stop]);
    assert_eq!(count(&actions, Action::AcquireGate), 0);
    assert_eq!(session.result(), Some(Err(error)));
}

#[test]
fn dropped_transport_reaps_child_and_restores_privilege() {
    let mut session = Session::new(true, false);
    let actions = run(
        &mut session,
        &[
            Event::Request(Capability::Shell),
            Event::GateAcquired,
            Event::Assumed,
            Event::Launched,
            Event::BridgeEnded(BridgeOutcome::TransportClosed),
            Event::Reaped,
            Event::Restored,
            Event::GateReleased,
            Event::TransportClosed,
        ],
    );
    assert_eq!(
        actions,
        vec![
            Action::Receive,
            Action::AcquireGate,
            Action::Assume,
            Action::Launch,
            Action::Bridge,
            Action::Reap,
            Action::Restore,
            Action::ReleaseGate,
            Action::Close(None),
            Action::Stop,
        ]
    );
    assert_eq!(session.state(), SessionState::Closed);
    assert_eq!(session.result(), Some(Ok(())));
}

#[test]
fn launch_failure_restores_privilege_and_reports_once() {
    let mut session = Session::new(true, false);
    let actions = run(
        &mut session,
        &[
            Event::Request(Capability::Shell),
            Event::GateAcquired,
            Event::Assumed,
            Event::LaunchFailed(LaunchError::ForkFailed(11)),
            Event::Restored,
            Event::GateReleased,
            Event::CloseSent,
        ],
    );
    let error = SessionError::Launch(LaunchError::ForkFailed(11));
    assert_eq!(
        actions,
        vec![
            Action::Receive,
            Action::AcquireGate,
            Action::Assume,
            Action::Launch,
            Action::Restore,
            Action::ReleaseGate,
            Action::Close(Some(error)),
            Action::Stop,
        ]
    );
    assert_eq!(count(&actions, Action::Assume), count(&actions, Action::Restore));
    assert_eq!(session.result(), Some(Err(error)));
}

#[test]
fn failed_assume_is_followed_by_restore() {
    let mut session = Session::new(true, false);
    let actions = run(
        &mut session,
        &[
            Event::Request(Capability::Shell),
            Event::GateAcquired,
            Event::AssumeFailed,
            Event::Restored,
            Event::GateReleased,
            Event::CloseSent,
        ],
    );
    assert_eq!(count(&actions, Action::Launch), 0);
    assert_eq!(count(&actions, Action::Assume), 1);
    assert_eq!(count(&actions, Action::Restore), 1);
    assert_eq!(
        session.result(),
        Some(Err(SessionError::Privilege(PrivilegeError::AssumeFailed)))
    );
}

#[test]
fn failed_restore_stops_the_daemon() {
    let mut session = Session::new(true, false);
    let actions = run(
        &mut session,
        &[
            Event::Request(Capability::Shell),
            Event::GateAcquired,
            Event::Assumed,
            Event::Launched,
            Event::BridgeEnded(BridgeOutcome::Failed(BridgeError::ReadFailed(5))),
            Event::Reaped,
            Event::RestoreFailed,
            Event::GateReleased,
            Event::CloseSent,
        ],
    );
    assert_eq!(actions.last(), Some(&Action::Abort));
    assert_eq!(count(&actions, Action::ReleaseGate), 0);
    assert_eq!(session.state(), SessionState::Aborted);
    let error = SessionError::Privilege(PrivilegeError::RestoreFailed);
    assert_eq!(session.error(), Some(error));
    assert!(error.fatal());
    assert!(!SessionError::Bridge(BridgeError::ReadFailed(5)).fatal());
}

#[test]
fn bridge_error_is_reported_after_the_unwinding() {
    let mut session = Session::new(true, false);
    let actions = run(
        &mut session,
        &[
            Event::Request(Capability::Shell),
            Event::GateAcquired,
            Event::Assumed,
            Event::Launched,
            Event::BridgeEnded(BridgeOutcome::Failed(BridgeError::WriteFailed(32))),
            Event::Reaped,
            Event::Restored,
            Event::GateReleased,
        ],
    );
    assert_eq!(
        actions.last(),
        Some(&Action::Close(Some(SessionError::Bridge(BridgeError::WriteFailed(32)))))
    );
    assert_eq!(session.state(), SessionState::Closing);
    assert_eq!(session.result(), None);
}

#[test]
fn text_frame_during_shell_is_a_violation() {
    let mut session = Session::new(true, false);
    run(
        &mut session,
        &[
            Event::Request(Capability::Shell),
            Event::GateAcquired,
            Event::Assumed,
            Event::Launched,
            Event::BridgeEnded(BridgeOutcome::ProtocolViolation),
        ],
    );
    assert_eq!(session.state(), SessionState::Shell(Stage::Reaping));
    assert_eq!(
        session.error(),
        Some(SessionError::Protocol(ProtocolViolation::UnexpectedFrame))
    );
}

#[test]
fn unknown_capability_ends_without_privilege() {
    for capability in
        [Capability::Unknown, Capability::Plugin, Capability::Update, Capability::Manage]
    {
        let mut session = Session::new(true, true);
        let actions = run(&mut session, &[Event::Request(capability), Event::CloseSent]);
        let error = SessionError::Protocol(ProtocolViolation::UnknownCapability);
        assert_eq!(actions, vec![Action::Receive, Action::Close(Some(error)), Action::Stop]);
    }
}

#[test]
fn unexpected_first_frame_ends_the_session() {
    let mut session = Session::new(true, true);
    let action = session.step(Event::UnexpectedFrame);
    assert_eq!(
        action,
        Action::Close(Some(SessionError::Protocol(ProtocolViolation::UnexpectedFrame)))
    );
    assert_eq!(session.state(), SessionState::Closing);
}

#[test]
fn served_capabilities_need_no_child() {
    let mut session = Session::new(true, false);
    let actions =
        run(&mut session, &[Event::Request(Capability::StatusPower), Event::Served, Event::CloseSent]);
    assert_eq!(
        actions,
        vec![
            Action::Receive,
            Action::Serve(Capability::StatusPower),
            Action::Close(None),
            Action::Stop,
        ]
    );
}

#[test]
fn settings_push_needs_an_administrator() {
    let mut plain = Session::new(true, false);
    assert_eq!(
        plain.step(Event::Request(Capability::SettingsPush)),
        Action::Close(Some(SessionError::Protocol(ProtocolViolation::NotPermitted)))
    );
    let mut admin = Session::new(true, true);
    assert_eq!(
        admin.step(Event::Request(Capability::SettingsPush)),
        Action::Serve(Capability::SettingsPush)
    );
    let mut reader = Session::new(true, false);
    assert_eq!(
        reader.step(Event::Request(Capability::SettingsPull)),
        Action::Serve(Capability::SettingsPull)
    );
}

#[test]
fn events_out_of_turn_change_nothing() {
    let mut session = Session::new(true, false);
    assert_eq!(session.step(Event::Launched), Action::Wait);
    assert_eq!(session.step(Event::GateAcquired), Action::Wait);
    assert_eq!(session.state(), SessionState::AwaitingCapability);
    session.step(Event::Request(Capability::Shell));
    assert_eq!(session.step(Event::Assumed), Action::Wait);
    assert_eq!(session.step(Event::TransportClosed), Action::Wait);
    assert_eq!(session.state(), SessionState::Shell(Stage::AcquiringGate));
    assert_eq!(session.command(), Action::AcquireGate);
}

#[test]
fn closed_session_stays_closed() {
    let mut session = Session::new(true, false);
    run(&mut session, &[Event::TransportClosed, Event::CloseSent]);
    assert_eq!(session.state(), SessionState::Closed);
    assert_eq!(session.step(Event::Request(Capability::Shell)), Action::Wait);
    assert_eq!(session.command(), Action::Stop);
    assert_eq!(session.result(), Some(Ok(())));
}

#[test]
fn first_error_is_the_one_reported() {
    let mut session = Session::new(true, false);
    run(
        &mut session,
        &[
            Event::Request(Capability::Shell),
            Event::GateAcquired,
            Event::Assumed,
            Event::LaunchFailed(LaunchError::ReadyTimeout),
            Event::Restored,
            Event::GateReleased,
        ],
    );
    assert_eq!(session.error(), Some(SessionError::Launch(LaunchError::ReadyTimeout)));
}

#[test]
fn echo_in_a_shell_arrives_before_the_closing_frame() {
    let identity = Identity::new(
        1000,
        1000,
        vec![1000, 27],
        "/home/alice".to_string(),
        "/bin/sh".to_string(),
    );
    let mut sent: Vec<Frame> = Vec::new();
    let mut typed: Vec<u8> = Vec::new();
    let mut gate = Gate::new();
    let mut session = Session::new(true, false);
    assert_eq!(session.step(Event::Request(Capability::parse("shell"))), Action::AcquireGate);
    let token = gate.acquire(1).expect("nobody else is inside");
    assert_eq!(session.step(Event::GateAcquired), Action::Assume);
    assert_eq!(session.step(Event::Assumed), Action::Launch);

    let mut launch = Launch::new(&identity);
    launch.step(LaunchEvent::ShellChecked(true));
    launch.step(LaunchEvent::PtyOpened(5));
    launch.step(LaunchEvent::NonBlockingSet);
    assert_eq!(child_plan(&identity, TerminalMode::Pty).len(), 12);
    launch.step(LaunchEvent::Forked(300));
    launch.step(LaunchEvent::ChildReady);
    let handle = launch.finish().ok().expect("the launch is over").expect("the child runs");
    assert_eq!(session.step(Event::Launched), Action::Bridge);

    let mut bridge = Bridge::new(handle);
    bridge.accept_frame(Frame::Binary(b"echo hi\n".to_vec()));
    typed.extend_from_slice(bridge.pending());
    bridge.write_returned(typed.len());
    sent.extend(bridge.read_returned(b"hi\n".to_vec()));
    bridge.child_checked(300);
    let ended = bridge.finish().ok().expect("the bridge has ended");
    assert_eq!(ended.descriptors, vec![5]);
    assert_eq!(ended.child, 300);

    assert_eq!(session.step(Event::BridgeEnded(ended.outcome)), Action::Restore);
    assert_eq!(session.step(Event::Restored), Action::ReleaseGate);
    assert!(gate.release(token).is_none());
    let closing = session.step(Event::GateReleased);
    assert_eq!(closing, Action::Close(None));
    sent.extend(closing_frames(None));
    assert_eq!(session.step(Event::CloseSent), Action::Stop);

    assert_eq!(typed.as_slice(), b"echo hi\n");
    assert_eq!(sent.len(), 2);
    assert!(matches!(&sent[0], Frame::Binary(bytes) if bytes.as_slice() == b"hi\n"));
    assert!(matches!(sent[1], Frame::Close));
    assert_eq!(Reply::Done.text(), "done");
    assert_eq!(session.result(), Some(Ok(())));
    assert_eq!(gate.holder(), None);
}

#[test]
fn second_shell_is_launched_after_the_first_has_restored() {
    let mut gate = Gate::new();
    let mut first = Session::new(true, false);
    let mut second = Session::new(true, false);
    assert_eq!(first.step(Event::Request(Capability::Shell)), Action::AcquireGate);
    assert_eq!(second.step(Event::Request(Capability::Shell)), Action::AcquireGate);
    let token = gate.acquire(1).expect("the first is admitted");
    assert!(gate.acquire(2).is_none());
    first.step(Event::GateAcquired);
    first.step(Event::Assumed);
    first.step(Event::Launched);
    assert_eq!(second.state(), SessionState::Shell(Stage::AcquiringGate));
    assert_eq!(second.command(), Action::AcquireGate);
    first.step(Event::BridgeEnded(BridgeOutcome::ChildExited));
    assert_eq!(gate.holder(), Some(1));
    assert_eq!(first.step(Event::Restored), Action::ReleaseGate);
    let next = gate.release(token).expect("the second is admitted");
    first.step(Event::GateReleased);
    assert_eq!(next.session(), 2);
    assert_eq!(second.step(Event::GateAcquired), Action::Assume);
    assert_eq!(second.step(Event::Assumed), Action::Launch);
}

#[test]
fn first_frame_names_the_capability() {
    let text = Frame::Text("/shell".to_string());
    assert_eq!(Event::first_frame(Some(&text)), Event::Request(Capability::Shell));
    let text = Frame::Text("nonsense".to_string());
    assert_eq!(Event::first_frame(Some(&text)), Event::Request(Capability::Unknown));
    let binary = Frame::Binary(vec![1]);
    assert_eq!(Event::first_frame(Some(&binary)), Event::UnexpectedFrame);
    assert_eq!(Event::first_frame(Some(&Frame::Close)), Event::TransportClosed);
    assert_eq!(Event::first_frame(None), Event::TransportClosed);
}

#[test]
fn end_of_a_launch_is_reported_to_the_session() {
    assert_eq!(Event::of_launch(None), Event::Launched);
    assert_eq!(
        Event::of_launch(Some(LaunchError::ResourceExhausted)),
        Event::LaunchFailed(LaunchError::ResourceExhausted)
    );
}
