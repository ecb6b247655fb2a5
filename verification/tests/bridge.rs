use system_manager_server::bridge::{Bridge, BridgeOutcome, Frame};
use system_manager_server::errors::BridgeError;
use system_manager_server::launcher::{SessionHandle, Terminal};

fn bridge_to_child() -> Bridge {
    Bridge::new(SessionHandle::new(4242, Terminal::Pty { master: 7 }))
}

#[test]
fn echo_round_trip_keeps_the_bytes() {
    let mut bridge = bridge_to_child();
    bridge.accept_frame(Frame::Binary(b"echo hi\n".to_vec()));
    assert_eq!(bridge.pending().as_slice(), b"echo hi\n");
    bridge.write_returned(8);
    assert!(bridge.pending().is_empty());
    let frame = bridge.read_returned(b"hi\n".to_vec());
    assert!(matches!(frame, Some(Frame::Binary(ref bytes)) if bytes.as_slice() == b"hi\n"));
    assert_eq!(bridge.outcome(), None);
    bridge.child_checked(4242);
    assert_eq!(bridge.outcome(), Some(BridgeOutcome::ChildExited));
}

#[test]
fn input_is_delivered_in_order_over_partial_writes() {
    let mut bridge = bridge_to_child();
    let mut delivered: Vec<u8> = Vec::new();
    bridge.accept_frame(Frame::Binary(b"abc".to_vec()));
    bridge.accept_frame(Frame::Binary(b"defg".to_vec()));
    assert_eq!(bridge.pending().as_slice(), b"abcdefg");
    delivered.extend_from_slice(&bridge.pending()[..2]);
    bridge.write_returned(2);
    assert_eq!(bridge.pending().as_slice(), b"cdefg");
    bridge.accept_frame(Frame::Binary(b"h".to_vec()));
    bridge.write_failed(11, true);
    assert_eq!(bridge.outcome(), None);
    assert_eq!(bridge.pending().as_slice(), b"cdefgh");
    delivered.extend_from_slice(&bridge.pending()[..6]);
    bridge.write_returned(6);
    assert!(bridge.pending().is_empty());
    assert_eq!(delivered.as_slice(), b"abcdefgh");
}

#[test]
fn write_count_beyond_pending_takes_what_is_there() {
    let mut bridge = bridge_to_child();
    bridge.accept_frame(Frame::Binary(vec![1, 2, 3]));
    bridge.write_returned(10);
    assert!(bridge.pending().is_empty());
    bridge.write_returned(0);
    assert!(bridge.pending().is_empty());
}

#[test]
fn empty_read_is_not_forwarded() {
    let mut bridge = bridge_to_child();
    assert!(bridge.read_returned(Vec::new()).is_none());
    bridge.read_failed(11, true, 0);
    assert_eq!(bridge.outcome(), None);
    assert!(matches!(bridge.read_returned(vec![7]), Some(Frame::Binary(ref bytes)) if bytes == &vec![7]));
}

#[test]
fn close_frame_ends_the_bridge_from_the_peer() {
    let mut bridge = bridge_to_child();
    bridge.accept_frame(Frame::Binary(vec![1]));
    bridge.accept_frame(Frame::Close);
    assert_eq!(bridge.outcome(), Some(BridgeOutcome::TransportClosed));
    assert!(bridge.pending().is_empty());
    bridge.accept_frame(Frame::Binary(vec![2]));
    assert!(bridge.pending().is_empty());
    assert!(bridge.read_returned(vec![3]).is_none());
}

#[test]
fn text_frame_is_a_violation() {
    let mut bridge = bridge_to_child();
    bridge.accept_frame(Frame::Text("ls".to_string()));
    assert_eq!(bridge.outcome(), Some(BridgeOutcome::ProtocolViolation));
}

#[test]
fn first_ending_wins() {
    let mut bridge = bridge_to_child();
    bridge.read_failed(5, false, 0);
    assert_eq!(bridge.outcome(), Some(BridgeOutcome::Failed(BridgeError::ReadFailed(5))));
    bridge.child_checked(4242);
    bridge.transport_closed();
    bridge.write_failed(32, false);
    assert_eq!(bridge.outcome(), Some(BridgeOutcome::Failed(BridgeError::ReadFailed(5))));
}

#[test]
fn failed_write_ends_the_bridge() {
    let mut bridge = bridge_to_child();
    bridge.accept_frame(Frame::Binary(vec![1, 2]));
    bridge.write_failed(32, false);
    assert_eq!(bridge.outcome(), Some(BridgeOutcome::Failed(BridgeError::WriteFailed(32))));
    assert!(bridge.pending().is_empty());
}

#[test]
fn dropped_transport_ends_the_bridge() {
    let mut bridge = bridge_to_child();
    bridge.transport_closed();
    assert_eq!(bridge.outcome(), Some(BridgeOutcome::TransportClosed));
}

#[test]
fn ended_bridge_gives_up_the_handle_once() {
    let mut bridge = bridge_to_child();
    assert_eq!(bridge.child(), 4242);
    assert_eq!(bridge.terminal(), Terminal::Pty { master: 7 });
    let mut bridge = match bridge.finish() {
        Err(bridge) => bridge,
        Ok(ended) => panic!("a running bridge was taken apart: {:?}", ended),
    };
    bridge.transport_closed();
    let ended = bridge.finish().ok().expect("the bridge has ended");
    assert_eq!(ended.outcome, BridgeOutcome::TransportClosed);
    assert_eq!(ended.child, 4242);
    assert_eq!(ended.descriptors, vec![7]);
}

#[test]
fn bridge_over_pipes_closes_all_three() {
    let mut bridge =
        Bridge::new(SessionHandle::new(9, Terminal::Pipes { input: 3, output: 4, errors: 5 }));
    bridge.child_checked(4242);
    let ended = bridge.finish().ok().expect("the bridge has ended");
    assert_eq!(ended.outcome, BridgeOutcome::ChildExited);
    assert_eq!(ended.descriptors, vec![3, 4, 5]);
}

#[test]
fn check_that_finds_the_child_running_changes_nothing() {
    let mut bridge = bridge_to_child();
    bridge.child_checked(0);
    bridge.child_checked(-1);
    assert_eq!(bridge.outcome(), None);
    bridge.child_checked(4242);
    assert_eq!(bridge.outcome(), Some(BridgeOutcome::ChildExited));
}

#[test]
fn failed_read_of_an_exited_child_is_the_exit() {
    let mut bridge = bridge_to_child();
    bridge.read_failed(5, false, 4242);
    assert_eq!(bridge.outcome(), Some(BridgeOutcome::ChildExited));
    let mut bridge = bridge_to_child();
    bridge.read_failed(11, true, 4242);
    assert_eq!(bridge.outcome(), Some(BridgeOutcome::ChildExited));
    let mut bridge = bridge_to_child();
    bridge.read_failed(5, false, -1);
    assert_eq!(bridge.outcome(), Some(BridgeOutcome::Failed(BridgeError::ReadFailed(5))));
}
