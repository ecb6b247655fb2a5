//! The pump between the network transport and the child's terminal.
//!
//! The program around the library reads and writes; a [`Bridge`] decides what
//! each result means. It holds the child's handle while the bytes flow, it
//! keeps the bytes that the peer sent and the terminal has not taken yet, and
//! it remembers which side ended the session first. When it has ended, it
//! gives up the handle, once: the descriptors to close and the child to wait
//! for.

use vstd::prelude::*;
use crate::errors::BridgeError;
use crate::launcher::{check_exited, SessionHandle, SessionHandleView, Terminal};

verus! {

/// How many bytes are read from the terminal at once, at most.
pub const READ_SIZE: usize = 1024;

/// How long one wait for a frame of the peer lasts while the terminal has
/// nothing to read, in milliseconds. The terminal is looked at again after
/// each wait, so the pump never spins and never sleeps for long.
pub const POLL_INTERVAL_MILLIS: u64 = 10;

/// Which side ended a bridge, or what broke it.
#[derive(Clone, Copy, Debug, PartialEq, Eq, Structural)]
pub enum BridgeOutcome {
    /// The child process has exited and has been reaped by the check that
    /// found it so.
    ChildExited,
    /// The peer closed the transport, or the transport dropped.
    TransportClosed,
    /// The peer sent a frame that is not allowed while a shell runs.
    ProtocolViolation,
    /// A read or a write on the terminal failed.
    Failed(BridgeError),
}

/// One frame of the transport.
#[derive(Debug)]
pub enum Frame {
    Binary(Vec<u8>),
    Text(String),
    Close,
}

/// A [`Frame`] as mathematical values.
pub enum FrameView {
    Binary(Seq<u8>),
    Text(Seq<char>),
    Close,
}

impl View for Frame {
    type V = FrameView;

    open spec fn view(&self) -> FrameView {
        match self {
            Frame::Binary(bytes) => FrameView::Binary(bytes@),
            Frame::Text(text) => FrameView::Text(text@),
            Frame::Close => FrameView::Close,
        }
    }
}

/// All the byte sequences of `frames`, one after the other.
pub open spec fn concat(frames: Seq<Seq<u8>>) -> Seq<u8>
    decreases frames.len(),
{
    if frames.len() == 0 {
        Seq::empty()
    } else {
        concat(frames.drop_last()) + frames.last()
    }
}

/// The state of a bridge together with its history.
pub struct BridgeView {
    /// The child that the bridge leads to.
    pub handle: SessionHandleView,
    /// Bytes from the peer that the terminal has not taken yet.
    pub pending: Seq<u8>,
    /// `None` while the bridge runs.
    pub outcome: Option<BridgeOutcome>,
    /// Every byte that arrived in a binary frame while the bridge ran.
    pub accepted: Seq<u8>,
    /// Every byte that the terminal took as input.
    pub delivered: Seq<u8>,
    /// Every byte that was read from the terminal while the bridge ran.
    pub produced: Seq<u8>,
    /// The payloads of the binary frames handed out for the peer.
    pub forwarded: Seq<Seq<u8>>,
}

impl BridgeView {
    /// A bridge to the child of `handle` that has seen nothing yet.
    pub open spec fn initial(handle: SessionHandleView) -> BridgeView {
        BridgeView {
            handle,
            pending: Seq::empty(),
            outcome: None,
            accepted: Seq::empty(),
            delivered: Seq::empty(),
            produced: Seq::empty(),
            forwarded: Seq::empty(),
        }
    }

    /// Whether the bridge has not ended yet.
    pub open spec fn running(self) -> bool {
        self.outcome is None
    }

    /// The bridge after it has ended for the given reason. What was pending
    /// is dropped. A bridge that has ended already keeps its first outcome.
    pub open spec fn ended(self, outcome: BridgeOutcome) -> BridgeView {
        if self.running() {
            BridgeView { pending: Seq::empty(), outcome: Some(outcome), ..self }
        } else {
            self
        }
    }

    /// The bridge after a frame from the peer.
    pub open spec fn after_frame(self, frame: FrameView) -> BridgeView {
        if !self.running() {
            self
        } else {
            match frame {
                FrameView::Binary(bytes) => BridgeView {
                    pending: self.pending + bytes,
                    accepted: self.accepted + bytes,
                    ..self
                },
                FrameView::Text(_) => self.ended(BridgeOutcome::ProtocolViolation),
                FrameView::Close => self.ended(BridgeOutcome::TransportClosed),
            }
        }
    }

    /// How many of the pending bytes a write that returned `count` took.
    pub open spec fn taken(self, count: nat) -> nat {
        if !self.running() {
            0
        } else if count <= self.pending.len() {
            count
        } else {
            self.pending.len()
        }
    }

    /// The bridge after a write to the terminal returned `count`.
    pub open spec fn after_write(self, count: nat) -> BridgeView {
        let n = self.taken(count) as int;
        BridgeView {
            pending: self.pending.skip(n),
            delivered: self.delivered + self.pending.take(n),
            ..self
        }
    }

    /// Whether a read that returned `data` is passed on to the peer.
    pub open spec fn forwards(self, data: Seq<u8>) -> bool {
        self.running() && data.len() > 0
    }

    /// The bridge after a read from the terminal returned `data`.
    pub open spec fn after_read(self, data: Seq<u8>) -> BridgeView {
        if self.forwards(data) {
            BridgeView {
                produced: self.produced + data,
                forwarded: self.forwarded.push(data),
                ..self
            }
        } else {
            self
        }
    }

    /// The bridge after a read or a write failed with `error`. A call that
    /// would have blocked is no failure: it is tried again later.
    pub open spec fn after_failure(self, error: BridgeError, would_block: bool) -> BridgeView {
        if would_block {
            self
        } else {
            self.ended(BridgeOutcome::Failed(error))
        }
    }

    /// The bridge after a check on the child returned `waited`: the child's
    /// process id if the child has exited and has been waited for by the
    /// check, 0 while it runs, and a negative number if the check failed.
    pub open spec fn after_check(self, waited: i32) -> BridgeView {
        if waited > 0 {
            self.ended(BridgeOutcome::ChildExited)
        } else {
            self
        }
    }

    /// The bridge after a read from the terminal failed and the check on
    /// the child that was made right afterwards returned `waited`. A
    /// terminal whose child has exited fails every read: that is the end of
    /// the child and no failure of the bridge.
    pub open spec fn after_read_failure(self, errno: i32, would_block: bool, waited: i32) -> BridgeView {
        if waited > 0 {
            self.ended(BridgeOutcome::ChildExited)
        } else {
            self.after_failure(BridgeError::ReadFailed(errno), would_block)
        }
    }

    /// What ties the history together.
    ///
    /// Input reaches the terminal in the order in which it arrived: while the
    /// bridge runs, what arrived is what was delivered followed by what is
    /// pending, and afterwards what was delivered is still a prefix of what
    /// arrived. Output reaches the peer in the order in which the child wrote
    /// it: the frames handed out, joined, are the bytes read, and none of
    /// them is empty.
    pub open spec fn ordered(self) -> bool {
        &&& (self.delivered + self.pending).is_prefix_of(self.accepted)
        &&& self.running() ==> self.accepted == self.delivered + self.pending
        &&& !self.running() ==> self.pending.len() == 0
        &&& concat(self.forwarded) == self.produced
        &&& forall|i: int| 0 <= i < self.forwarded.len() ==> (#[trigger] self.forwarded[i]).len() > 0
    }
}

/// What is left of a bridge that has ended.
#[derive(Debug)]
pub struct Ended {
    /// Which side ended the bridge.
    pub outcome: BridgeOutcome,
    /// The child. Unless it was found exited, it still has to be waited for.
    pub child: i32,
    /// The descriptors that led to the child. They have to be closed.
    pub descriptors: Vec<i32>,
}

/// The bridge of one session.
pub struct Bridge {
    handle: SessionHandle,
    pending: Vec<u8>,
    outcome: Option<BridgeOutcome>,
    accepted: Ghost<Seq<u8>>,
    delivered: Ghost<Seq<u8>>,
    produced: Ghost<Seq<u8>>,
    forwarded: Ghost<Seq<Seq<u8>>>,
}

impl View for Bridge {
    type V = BridgeView;

    closed spec fn view(&self) -> BridgeView {
        BridgeView {
            handle: self.handle@,
            pending: self.pending@,
            outcome: self.outcome,
            accepted: self.accepted@,
            delivered: self.delivered@,
            produced: self.produced@,
            forwarded: self.forwarded@,
        }
    }
}

impl Bridge {
    /// A bridge to the child of `handle`. The bridge holds the handle from
    /// now on.
    pub fn new(handle: SessionHandle) -> (bridge: Bridge)
        ensures
            bridge@ == BridgeView::initial(handle@),
    {
        Bridge {
            handle,
            pending: Vec::new(),
            outcome: None,
            accepted: Ghost(Seq::empty()),
            delivered: Ghost(Seq::empty()),
            produced: Ghost(Seq::empty()),
            forwarded: Ghost(Seq::empty()),
        }
    }

    /// Which side ended the bridge; `None` while it runs.
    pub fn outcome(&self) -> (outcome: Option<BridgeOutcome>)
        ensures
            outcome == self@.outcome,
    {
        self.outcome
    }

    /// The process id of the child.
    pub fn child(&self) -> (child: i32)
        ensures
            child == self@.handle.pid,
    {
        self.handle.pid()
    }

    /// The descriptors that lead to the child.
    pub fn terminal(&self) -> (terminal: Terminal)
        ensures
            terminal == self@.handle.terminal,
    {
        self.handle.terminal()
    }

    /// Takes apart a bridge that has ended: the result says which side ended
    /// it, and holds the child and the descriptors to close, each once. A
    /// bridge that still runs is handed back as it is.
    pub fn finish(self) -> (result: Result<Ended, Bridge>)
        ensures
            match result {
                Ok(ended) => self@.outcome == Some(ended.outcome) && ended.child
                    == self@.handle.pid && ended.descriptors@
                    == self@.handle.terminal.descriptors(),
                Err(bridge) => self@.outcome is None && bridge@ == self@,
            },
    {
        match self.outcome {
            Some(outcome) => {
                let (child, descriptors) = self.handle.release();
                Ok(Ended { outcome, child, descriptors })
            },
            None => Err(self),
        }
    }

    /// The bytes to write to the terminal next, oldest first.
    pub fn pending(&self) -> (bytes: &Vec<u8>)
        ensures
            bytes@ == self@.pending,
    {
        &self.pending
    }

    fn end(&mut self, outcome: BridgeOutcome)
        ensures
            final(self)@ == old(self)@.ended(outcome),
    {
        if self.outcome.is_none() {
            self.pending.clear();
            self.outcome = Some(outcome);
        }
    }

    /// Takes a frame that the peer sent.
    ///
    /// A binary frame is queued for the terminal, byte for byte. A close
    /// frame ends the bridge, and so does a text frame, as a violation of
    /// the protocol. A bridge that has ended takes nothing.
    pub fn accept_frame(&mut self, frame: Frame)
        ensures
            final(self)@ == old(self)@.after_frame(frame@),
    {
        if self.outcome.is_some() {
            return ;
        }
        match frame {
            Frame::Binary(mut bytes) => {
                self.pending.append(&mut bytes);
                proof {
                    self.accepted@ = self.accepted@ + frame@->Binary_0;
                }
            },
            Frame::Text(_) => {
                self.end(BridgeOutcome::ProtocolViolation);
            },
            Frame::Close => {
                self.end(BridgeOutcome::TransportClosed);
            },
        }
    }

    /// Records that the transport is gone without a close frame.
    pub fn transport_closed(&mut self)
        ensures
            final(self)@ == old(self)@.ended(BridgeOutcome::TransportClosed),
    {
        self.end(BridgeOutcome::TransportClosed);
    }

    /// Takes what a check on the child returned: the child's process id if
    /// the child has exited and has been waited for by the check, 0 while it
    /// runs, and a negative number if the check failed. A child that has
    /// exited ends the bridge.
    pub fn child_checked(&mut self, waited: i32)
        ensures
            final(self)@ == old(self)@.after_check(waited),
    {
        if check_exited(waited) {
            self.end(BridgeOutcome::ChildExited);
        }
    }

    /// Records that a write of the pending bytes returned `count`: the
    /// terminal took that many of them, from the front.
    pub fn write_returned(&mut self, count: usize)
        ensures
            final(self)@ == old(self)@.after_write(count as nat),
    {
        if self.outcome.is_some() || count == 0 {
            assert(self@.pending.skip(0) == self@.pending);
            assert(self@.delivered + self@.pending.take(0) == self@.delivered);
            return ;
        }
        let n: usize = if count <= self.pending.len() {
            count
        } else {
            self.pending.len()
        };
        let rest = self.pending.split_off(n);
        proof {
            self.delivered@ = self.delivered@ + self.pending@;
            assert(old(self)@.pending.take(n as int) == self.pending@);
            assert(old(self)@.pending.skip(n as int) == rest@);
        }
        self.pending = rest;
    }

    /// Records that a write to the terminal failed with the system's error
    /// number `errno`; `would_block` says that the terminal was only not
    /// ready.
    pub fn write_failed(&mut self, errno: i32, would_block: bool)
        ensures
            final(self)@ == old(self)@.after_failure(BridgeError::WriteFailed(errno), would_block),
    {
        if !would_block {
            self.end(BridgeOutcome::Failed(BridgeError::WriteFailed(errno)));
        }
    }

    /// Takes what a read from the terminal returned. A read that brought
    /// bytes while the bridge runs becomes one binary frame for the peer,
    /// with exactly those bytes.
    pub fn read_returned(&mut self, data: Vec<u8>) -> (frame: Option<Frame>)
        ensures
            final(self)@ == old(self)@.after_read(data@),
            old(self)@.forwards(data@) ==> frame is Some && frame->Some_0@ == FrameView::Binary(
                data@,
            ),
            !old(self)@.forwards(data@) ==> frame is None,
    {
        if self.outcome.is_some() || data.len() == 0 {
            return None;
        }
        proof {
            self.produced@ = self.produced@ + data@;
            self.forwarded@ = self.forwarded@.push(data@);
        }
        Some(Frame::Binary(data))
    }

    /// Records that a read from the terminal failed with the system's error
    /// number `errno`; `would_block` says that there was only nothing to
    /// read yet, and `waited` is what a check on the child returned that was
    /// made after the read. Where the check found the child exited, the
    /// bridge ends with that; a read that failed for another reason than
    /// that it would have blocked breaks the bridge.
    pub fn read_failed(&mut self, errno: i32, would_block: bool, waited: i32)
        ensures
            final(self)@ == old(self)@.after_read_failure(errno, would_block, waited),
    {
        if check_exited(waited) {
            self.end(BridgeOutcome::ChildExited);
        } else if !would_block {
            self.end(BridgeOutcome::Failed(BridgeError::ReadFailed(errno)));
        }
    }
}

/// What can happen to a bridge.
pub enum BridgeEvent {
    Frame(FrameView),
    TransportClosed,
    ChildChecked(i32),
    WriteReturned(nat),
    WriteFailed(i32, bool),
    ReadReturned(Seq<u8>),
    ReadFailed(i32, bool, i32),
}

impl BridgeView {
    /// The bridge after one event.
    pub open spec fn after(self, event: BridgeEvent) -> BridgeView {
        match event {
            BridgeEvent::Frame(frame) => self.after_frame(frame),
            BridgeEvent::TransportClosed => self.ended(BridgeOutcome::TransportClosed),
            BridgeEvent::ChildChecked(waited) => self.after_check(waited),
            BridgeEvent::WriteReturned(count) => self.after_write(count),
            BridgeEvent::WriteFailed(errno, would_block) => self.after_failure(
                BridgeError::WriteFailed(errno),
                would_block,
            ),
            BridgeEvent::ReadReturned(data) => self.after_read(data),
            BridgeEvent::ReadFailed(errno, would_block, waited) => self.after_read_failure(
                errno,
                would_block,
                waited,
            ),
        }
    }

    /// The bridge after a run of events, oldest first.
    pub open spec fn after_all(self, events: Seq<BridgeEvent>) -> BridgeView
        decreases events.len(),
    {
        if events.len() == 0 {
            self
        } else {
            self.after_all(events.drop_last()).after(events.last())
        }
    }
}

/// One event keeps the history in order.
pub proof fn lemma_event_keeps_order(bridge: BridgeView, event: BridgeEvent)
    requires
        bridge.ordered(),
    ensures
        bridge.after(event).ordered(),
{
    let next = bridge.after(event);
    match event {
        BridgeEvent::Frame(FrameView::Binary(bytes)) => {
            if bridge.running() {
                assert(bridge.delivered + (bridge.pending + bytes) == (bridge.delivered
                    + bridge.pending) + bytes);
            }
        },
        BridgeEvent::WriteReturned(count) => {
            let n = bridge.taken(count) as int;
            assert(bridge.pending == bridge.pending.take(n) + bridge.pending.skip(n));
            assert((bridge.delivered + bridge.pending.take(n)) + bridge.pending.skip(n)
                == bridge.delivered + bridge.pending);
        },
        BridgeEvent::ReadReturned(data) => {
            if bridge.forwards(data) {
                assert(next.forwarded.drop_last() == bridge.forwarded);
            }
        },
        _ => {},
    }
    if bridge.running() && !next.running() {
        assert(next.delivered + next.pending == bridge.delivered);
    }
}

/// Bytes pass through a bridge in order, in both directions, whatever
/// happens to it: after any run of events on a new bridge, what the terminal
/// took is the beginning of what the peer sent in binary frames, nothing of
/// it is lost while the bridge runs, and the frames handed out for the peer
/// hold, joined, exactly what was read from the terminal.
pub proof fn lemma_bytes_pass_in_order(handle: SessionHandleView, events: Seq<BridgeEvent>)
    ensures
        BridgeView::initial(handle).after_all(events).ordered(),
        BridgeView::initial(handle).after_all(events).delivered.is_prefix_of(
            BridgeView::initial(handle).after_all(events).accepted,
        ),
        BridgeView::initial(handle).after_all(events).handle == handle,
    decreases events.len(),
{
    let start = BridgeView::initial(handle);
    if events.len() == 0 {
        assert(start.delivered + start.pending == start.accepted);
        assert(concat(start.forwarded) == start.produced);
    } else {
        lemma_bytes_pass_in_order(handle, events.drop_last());
        lemma_event_keeps_order(start.after_all(events.drop_last()), events.last());
    }
    let end = start.after_all(events);
    assert(end.delivered.is_prefix_of(end.accepted)) by {
        assert(end.delivered == (end.delivered + end.pending).subrange(
            0,
            end.delivered.len() as int,
        ));
    }
}

} // verus!
