//! Many sessions at one gate.
//!
//! The sessions of a daemon run side by side, and each asks the one gate of
//! the process before it touches privilege. This module describes them
//! together and shows that two sessions are never inside at once.

use vstd::prelude::*;
use crate::gate::{lemma_request_keeps_exclusive, GateRequest, GateView};
use crate::session::{Action, Event, SessionState, SessionView, Stage};

verus! {

/// A daemon: its gate and its sessions, each under its number.
pub struct DaemonView {
    pub gate: GateView,
    pub sessions: Map<u64, SessionView>,
}

impl DaemonView {
    /// A daemon whose sessions all wait for their request, at a free gate.
    pub open spec fn starts(self) -> bool {
        &&& self.gate == GateView::initial()
        &&& forall|id: u64| #[trigger]
            self.sessions.dom().contains(id) ==> self.sessions[id].state
                == SessionState::AwaitingCapability
    }

    /// Whether the program can report `event` to session `id` now. It
    /// cannot report to a session that does not exist, nor what the session
    /// does not wait for, nor an admission that has not been given.
    pub open spec fn allows(self, id: u64, event: Event) -> bool {
        &&& self.sessions.dom().contains(id)
        &&& self.sessions[id].accepts(event)
        &&& event == Event::GateAcquired ==> self.gate.holder == Some(id)
    }

    /// The daemon after `event` has been reported to session `id`. A session
    /// that starts to ask for admission is put before the daemon's gate with that, and
    /// a session whose release is reported has given its token back.
    pub open spec fn after(self, id: u64, event: Event) -> DaemonView {
        if !self.allows(id, event) {
            self
        } else {
            let session = self.sessions[id].after(event);
            let gate = if session.command() == Action::AcquireGate {
                self.gate.after_acquire(id)
            } else if event == Event::GateReleased {
                self.gate.after_release(id)
            } else {
                self.gate
            };
            DaemonView { gate, sessions: self.sessions.insert(id, session) }
        }
    }

    /// The daemon after a run of reports, oldest first.
    pub open spec fn after_all(self, reports: Seq<(u64, Event)>) -> DaemonView
        decreases reports.len(),
    {
        if reports.len() == 0 {
            self
        } else {
            self.after_all(reports.drop_last()).after(reports.last().0, reports.last().1)
        }
    }

    /// Whether session `id` is inside: admitted, and its release not yet
    /// reported. A session that made the daemon stop stays inside.
    pub open spec fn inside(self, id: u64) -> bool {
        self.sessions.dom().contains(id) && (self.sessions[id].holds_gate()
            || self.sessions[id].state == SessionState::Aborted)
    }

    /// What holds of a daemon at every moment.
    pub open spec fn serialised(self) -> bool {
        &&& self.gate.exclusive()
        &&& forall|id: u64| #[trigger] self.inside(id) ==> self.gate.holder == Some(id)
        &&& forall|id: u64| #[trigger]
            self.sessions.dom().contains(id) && self.sessions[id].state == SessionState::Shell(
                Stage::AcquiringGate,
            ) ==> self.gate.knows(id)
    }
}

/// One report leaves a daemon serialised.
pub proof fn lemma_report_keeps_serialised(daemon: DaemonView, id: u64, event: Event)
    requires
        daemon.serialised(),
    ensures
        daemon.after(id, event).serialised(),
{
    let next = daemon.after(id, event);
    if daemon.allows(id, event) {
        let session = daemon.sessions[id].after(event);
        if session.command() == Action::AcquireGate {
            lemma_request_keeps_exclusive(daemon.gate, GateRequest::Acquire(id));
            assert(!daemon.inside(id));
            assert forall|other: u64| #[trigger] next.inside(other) implies next.gate.holder
                == Some(other) by {
                assert(daemon.inside(other));
            }
            assert forall|other: u64| #[trigger]
                next.sessions.dom().contains(other) && next.sessions[other].state
                    == SessionState::Shell(Stage::AcquiringGate) implies next.gate.knows(other) by {
                if other != id {
                    assert(daemon.gate.knows(other));
                    if daemon.gate.waiting.contains(other) {
                        let i = choose|i: int|
                            0 <= i < daemon.gate.waiting.len() && daemon.gate.waiting[i] == other;
                        if next.gate.waiting != daemon.gate.waiting {
                            assert(next.gate.waiting[i] == other);
                        }
                    }
                } else {
                    if !daemon.gate.admits(id) && !daemon.gate.knows(id) {
                        assert(next.gate.waiting[next.gate.waiting.len() - 1] == id);
                    }
                }
            }
        } else if event == Event::GateReleased {
            lemma_request_keeps_exclusive(daemon.gate, GateRequest::Release(id));
            assert(daemon.inside(id));
            assert forall|other: u64| #[trigger] next.inside(other) implies next.gate.holder
                == Some(other) by {
                if other != id {
                    assert(daemon.inside(other));
                }
            }
            assert forall|other: u64| #[trigger]
                next.sessions.dom().contains(other) && next.sessions[other].state
                    == SessionState::Shell(Stage::AcquiringGate) implies next.gate.knows(other) by {
                assert(other != id);
                assert(daemon.gate.knows(other));
                assert(daemon.gate.waiting.contains(other));
                let i = choose|i: int|
                    0 <= i < daemon.gate.waiting.len() && daemon.gate.waiting[i] == other;
                if i > 0 {
                    assert(next.gate.waiting[i - 1] == other);
                }
            }
        } else {
            assert forall|other: u64| #[trigger] next.inside(other) implies next.gate.holder
                == Some(other) by {
                if other != id {
                    assert(daemon.inside(other));
                } else if event != Event::GateAcquired {
                    assert(daemon.inside(id));
                }
            }
            assert forall|other: u64| #[trigger]
                next.sessions.dom().contains(other) && next.sessions[other].state
                    == SessionState::Shell(Stage::AcquiringGate) implies next.gate.knows(other) by {
                assert(daemon.sessions.dom().contains(other) && daemon.sessions[other].state
                    == SessionState::Shell(Stage::AcquiringGate));
            }
        }
    }
}

/// Two sessions are never inside at once.
///
/// Take a daemon at its start, with any number of sessions, and any run of
/// reports to them, in any interleaving. Afterwards the session that is
/// inside, if one is, is the one that holds the token, the tokens that are out
/// are at most one, and no two different sessions are inside: of all the
/// sessions that ask for a shell at the same time, one at most is taking on
/// an account, starting its child, running it or giving privilege back.
pub proof fn lemma_one_session_inside(daemon: DaemonView, reports: Seq<(u64, Event)>)
    requires
        daemon.starts(),
    ensures
        daemon.after_all(reports).serialised(),
        0 <= daemon.after_all(reports).gate.outstanding() <= 1,
        forall|a: u64, b: u64|
            daemon.after_all(reports).inside(a) && daemon.after_all(reports).inside(b) ==> a == b,
    decreases reports.len(),
{
    if reports.len() > 0 {
        lemma_one_session_inside(daemon, reports.drop_last());
        lemma_report_keeps_serialised(
            daemon.after_all(reports.drop_last()),
            reports.last().0,
            reports.last().1,
        );
    } else {
        assert forall|id: u64| #[trigger] daemon.inside(id) implies daemon.gate.holder == Some(
            id,
        ) by {
            assert(daemon.sessions.dom().contains(id));
        }
    }
    let end = daemon.after_all(reports);
    assert forall|a: u64, b: u64| end.inside(a) && end.inside(b) implies a == b by {
        assert(end.gate.holder == Some(a));
        assert(end.gate.holder == Some(b));
    }
}

/// A session that asks for a shell while another is inside is kept waiting
/// until the other's release has been reported: it cannot be admitted
/// before.
pub proof fn lemma_second_waits_for_first(daemon: DaemonView, first: u64, second: u64)
    requires
        daemon.serialised(),
        daemon.inside(first),
        first != second,
    ensures
        !daemon.allows(second, Event::GateAcquired),
        forall|event: Event|
            event != Event::GateReleased ==> !(#[trigger] daemon.after(first, event)).allows(
                second,
                Event::GateAcquired,
            ),
{
    assert forall|event: Event| event != Event::GateReleased implies !(#[trigger] daemon.after(
        first,
        event,
    )).allows(second, Event::GateAcquired) by {
        let next = daemon.after(first, event);
        if daemon.allows(first, event) {
            assert(daemon.sessions[first].after(event).command() != Action::AcquireGate);
            assert(next.gate == daemon.gate);
        }
    }
}

} // verus!
