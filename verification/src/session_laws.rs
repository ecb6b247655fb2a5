//! What holds of every session, whatever is reported to it.

use vstd::prelude::*;
use crate::bridge::BridgeOutcome;
use crate::session::{Action, Capability, Event, SessionState, SessionView, Stage};

verus! {

impl SessionView {
    /// The session after a run of events, oldest first.
    pub open spec fn after_all(self, events: Seq<Event>) -> SessionView
        decreases events.len(),
    {
        if events.len() == 0 {
            self
        } else {
            self.after_all(events.drop_last()).after(events.last())
        }
    }

    /// Whether the session has asked for admission and has not asked to
    /// give it back. A daemon that has to stop never gives it back.
    pub open spec fn wants_gate(self) -> bool {
        ||| self.state matches SessionState::Shell(stage) && stage != Stage::Releasing
        ||| self.state == SessionState::Aborted
    }
}

/// The actions that a session has asked for over a run of events: the one of
/// the state it started in, and then one for each event that it accepted.
pub open spec fn issued(start: SessionView, events: Seq<Event>) -> Seq<Action>
    decreases events.len(),
{
    if events.len() == 0 {
        seq![start.command()]
    } else {
        let before = start.after_all(events.drop_last());
        if before.accepts(events.last()) {
            issued(start, events.drop_last()).push(before.after(events.last()).command())
        } else {
            issued(start, events.drop_last())
        }
    }
}

/// The events of a run that the session accepted, oldest first.
pub open spec fn accepted(start: SessionView, events: Seq<Event>) -> Seq<Event>
    decreases events.len(),
{
    if events.len() == 0 {
        Seq::empty()
    } else {
        let before = start.after_all(events.drop_last());
        if before.accepts(events.last()) {
            accepted(start, events.drop_last()).push(events.last())
        } else {
            accepted(start, events.drop_last())
        }
    }
}

/// How often `action` stands in `actions`.
pub open spec fn count(actions: Seq<Action>, action: Action) -> nat
    decreases actions.len(),
{
    if actions.len() == 0 {
        0
    } else {
        count(actions.drop_last(), action) + if actions.last() == action {
            1nat
        } else {
            0nat
        }
    }
}

/// How many of `actions` close the transport.
pub open spec fn closings(actions: Seq<Action>) -> nat
    decreases actions.len(),
{
    if actions.len() == 0 {
        0
    } else {
        closings(actions.drop_last()) + if actions.last() is Close {
            1nat
        } else {
            0nat
        }
    }
}

/// How often `event` stands in `events`.
pub open spec fn occurrences(events: Seq<Event>, event: Event) -> nat
    decreases events.len(),
{
    if events.len() == 0 {
        0
    } else {
        occurrences(events.drop_last(), event) + if events.last() == event {
            1nat
        } else {
            0nat
        }
    }
}

proof fn lemma_count_push(actions: Seq<Action>, last: Action, action: Action)
    ensures
        count(actions.push(last), action) == count(actions, action) + if last == action {
            1nat
        } else {
            0nat
        },
        closings(actions.push(last)) == closings(actions) + if last is Close {
            1nat
        } else {
            0nat
        },
{
    assert(actions.push(last).drop_last() == actions);
}

proof fn lemma_occurrences_push(events: Seq<Event>, last: Event, event: Event)
    ensures
        occurrences(events.push(last), event) == occurrences(events, event) + if last == event {
            1nat
        } else {
            0nat
        },
{
    assert(events.push(last).drop_last() == events);
}

/// How the takings and the givings back of privilege in a history fit the
/// state that the session is in.
pub open spec fn privilege_balanced(end: SessionView, actions: Seq<Action>) -> bool {
    &&& actions.len() > 0
    &&& actions.last() == end.command()
    &&& count(actions, Action::Assume) == count(actions, Action::Restore) + if end.is_assumed() {
        1nat
    } else {
        0nat
    }
    &&& forall|k: int|
        0 <= k < actions.len() && #[trigger] actions[k] == Action::ReleaseGate ==> k > 0
            && actions[k - 1] == Action::Restore
}

/// How the askings for admission and for release in a history fit the state
/// that the session is in.
pub open spec fn admission_balanced(end: SessionView, actions: Seq<Action>) -> bool {
    &&& actions.len() > 0
    &&& actions.last() == end.command()
    &&& count(actions, Action::AcquireGate) == count(actions, Action::ReleaseGate)
        + if end.wants_gate() {
        1nat
    } else {
        0nat
    }
    &&& forall|k: int|
        0 <= k < actions.len() && (#[trigger] actions[k]).is_privileged() ==> count(
            actions.take(k),
            Action::AcquireGate,
        ) == count(actions.take(k), Action::ReleaseGate) + 1
}

/// How the children started and waited for in a history fit the state that
/// the session is in.
pub open spec fn children_balanced(end: SessionView, actions: Seq<Action>, events: Seq<Event>) -> bool {
    occurrences(events, Event::Launched) == count(actions, Action::Reap) + occurrences(
        events,
        Event::BridgeEnded(BridgeOutcome::ChildExited),
    ) + if end.state == SessionState::Shell(Stage::Bridging) {
        1nat
    } else {
        0nat
    }
}

/// How the closings in a history fit the state that the session is in.
pub open spec fn closing_balanced(end: SessionView, actions: Seq<Action>) -> bool {
    &&& actions.len() > 0
    &&& actions.last() == end.command()
    &&& closings(actions) == if end.state == SessionState::Closing || end.state
        == SessionState::Closed {
        1nat
    } else {
        0nat
    }
    &&& count(actions, Action::Stop) == if end.state == SessionState::Closed {
        1nat
    } else {
        0nat
    }
    &&& forall|k: int|
        0 <= k < actions.len() && #[trigger] actions[k] == Action::Stop ==> k > 0 && actions[k
            - 1] is Close
}

proof fn lemma_first_action(start: SessionView, action: Action)
    requires
        start.state == SessionState::AwaitingCapability,
    ensures
        issued(start, Seq::empty()) == seq![Action::Receive],
        count(issued(start, Seq::empty()), action) == if action == Action::Receive {
            1nat
        } else {
            0nat
        },
        closings(issued(start, Seq::empty())) == 0,
{
    let none = Seq::<Action>::empty();
    assert(issued(start, Seq::empty()) == none.push(Action::Receive));
    lemma_count_push(none, Action::Receive, action);
}

proof fn lemma_privilege_balanced(start: SessionView, events: Seq<Event>)
    requires
        start.state == SessionState::AwaitingCapability,
    ensures
        privilege_balanced(start.after_all(events), issued(start, events)),
    decreases events.len(),
{
    if events.len() == 0 {
        lemma_first_action(start, Action::Assume);
        lemma_first_action(start, Action::Restore);
    } else {
        let before = start.after_all(events.drop_last());
        let earlier = issued(start, events.drop_last());
        lemma_privilege_balanced(start, events.drop_last());
        if before.accepts(events.last()) {
            let action = before.after(events.last()).command();
            lemma_count_push(earlier, action, Action::Assume);
            lemma_count_push(earlier, action, Action::Restore);
        }
    }
}

proof fn lemma_admission_balanced(start: SessionView, events: Seq<Event>)
    requires
        start.state == SessionState::AwaitingCapability,
    ensures
        admission_balanced(start.after_all(events), issued(start, events)),
    decreases events.len(),
{
    let actions = issued(start, events);
    if events.len() == 0 {
        lemma_first_action(start, Action::AcquireGate);
        lemma_first_action(start, Action::ReleaseGate);
    } else {
        let before = start.after_all(events.drop_last());
        let earlier = issued(start, events.drop_last());
        lemma_admission_balanced(start, events.drop_last());
        if before.accepts(events.last()) {
            let action = before.after(events.last()).command();
            lemma_count_push(earlier, action, Action::AcquireGate);
            lemma_count_push(earlier, action, Action::ReleaseGate);
            assert forall|k: int|
                0 <= k < actions.len() && (#[trigger] actions[k]).is_privileged() implies count(
                actions.take(k),
                Action::AcquireGate,
            ) == count(actions.take(k), Action::ReleaseGate) + 1 by {
                if k < earlier.len() {
                    assert(actions.take(k) == earlier.take(k));
                    assert(earlier[k].is_privileged());
                } else {
                    assert(actions.take(k) == earlier);
                }
            }
        }
    }
}

proof fn lemma_children_balanced(start: SessionView, events: Seq<Event>)
    requires
        start.state == SessionState::AwaitingCapability,
    ensures
        children_balanced(start.after_all(events), issued(start, events), accepted(start, events)),
    decreases events.len(),
{
    if events.len() == 0 {
        lemma_first_action(start, Action::Reap);
    } else {
        let before = start.after_all(events.drop_last());
        let earlier = issued(start, events.drop_last());
        let seen = accepted(start, events.drop_last());
        let event = events.last();
        lemma_children_balanced(start, events.drop_last());
        if before.accepts(event) {
            let action = before.after(event).command();
            lemma_count_push(earlier, action, Action::Reap);
            lemma_occurrences_push(seen, event, Event::Launched);
            lemma_occurrences_push(seen, event, Event::BridgeEnded(BridgeOutcome::ChildExited));
        }
    }
}

proof fn lemma_closing_balanced(start: SessionView, events: Seq<Event>)
    requires
        start.state == SessionState::AwaitingCapability,
    ensures
        closing_balanced(start.after_all(events), issued(start, events)),
    decreases events.len(),
{
    if events.len() == 0 {
        lemma_first_action(start, Action::Stop);
    } else {
        let before = start.after_all(events.drop_last());
        let earlier = issued(start, events.drop_last());
        lemma_closing_balanced(start, events.drop_last());
        if before.accepts(events.last()) {
            let action = before.after(events.last()).command();
            lemma_count_push(earlier, action, Action::Stop);
        }
    }
}

/// Every taking of privilege is matched by one giving back, and admission is
/// given back only right after privilege has been.
///
/// For a session that started by waiting for a request, after any run of
/// events: it has asked to take on the target account as often as it has
/// asked to give privilege back, plus once if the account is taken on at this
/// moment. So a closed session has asked for both equally often. Whenever it
/// asked to give admission back, the action just before was the one that gives
/// privilege back. And it has asked for admission as often as it asked to
/// give it back, plus once while it wants it.
pub proof fn lemma_assume_matches_restore(start: SessionView, events: Seq<Event>)
    requires
        start.state == SessionState::AwaitingCapability,
    ensures
        ({
            let end = start.after_all(events);
            let actions = issued(start, events);
            &&& count(actions, Action::Assume) == count(actions, Action::Restore)
                + if end.is_assumed() {
                1nat
            } else {
                0nat
            }
            &&& end.state == SessionState::Closed ==> count(actions, Action::Assume) == count(
                actions,
                Action::Restore,
            )
            &&& end.state == SessionState::Closed ==> count(actions, Action::AcquireGate) == count(
                actions,
                Action::ReleaseGate,
            )
            &&& count(actions, Action::AcquireGate) == count(actions, Action::ReleaseGate)
                + if end.wants_gate() {
                1nat
            } else {
                0nat
            }
            &&& forall|k: int|
                0 <= k < actions.len() && #[trigger] actions[k] == Action::ReleaseGate ==> k > 0
                    && actions[k - 1] == Action::Restore
        }),
{
    lemma_privilege_balanced(start, events);
    lemma_admission_balanced(start, events);
}

/// No action that changes or uses privilege is asked for without admission:
/// before each such action the session has asked for admission once more
/// often than it has asked to release it.
pub proof fn lemma_privilege_only_inside_gate(start: SessionView, events: Seq<Event>, k: int)
    requires
        start.state == SessionState::AwaitingCapability,
        0 <= k < issued(start, events).len(),
        issued(start, events)[k].is_privileged(),
    ensures
        count(issued(start, events).take(k), Action::AcquireGate) == count(
            issued(start, events).take(k),
            Action::ReleaseGate,
        ) + 1,
{
    lemma_admission_balanced(start, events);
}

/// What a session holds, it holds inside what it took before: a child
/// exists only while the target account is taken on, and the account is
/// taken on only while the session is admitted. So no child outlives the
/// giving back of privilege, and privilege is given back before the
/// admission is.
pub proof fn lemma_lifetimes_nest(session: SessionView)
    ensures
        session.has_child() ==> session.is_assumed(),
        session.is_assumed() ==> session.holds_gate(),
        session.state == SessionState::Closed ==> !session.has_child() && !session.is_assumed()
            && !session.holds_gate(),
{
}

/// Every child is waited for exactly once.
///
/// After any run of events, the children that were started are as many as
/// those that the bridge found exited (and so waited for), those that the
/// session asked to be waited for, and the one that still runs, if one does.
/// A closed session has left no child behind.
pub proof fn lemma_every_child_reaped_once(start: SessionView, events: Seq<Event>)
    requires
        start.state == SessionState::AwaitingCapability,
    ensures
        ({
            let end = start.after_all(events);
            let actions = issued(start, events);
            let seen = accepted(start, events);
            &&& occurrences(seen, Event::Launched) == count(actions, Action::Reap) + occurrences(
                seen,
                Event::BridgeEnded(BridgeOutcome::ChildExited),
            ) + if end.state == SessionState::Shell(Stage::Bridging) {
                1nat
            } else {
                0nat
            }
            &&& end.state == SessionState::Closed ==> !end.has_child() && !end.holds_gate()
                && !end.is_assumed()
        }),
{
    lemma_children_balanced(start, events);
}

/// A session closes the transport once, and only then stops.
///
/// After any run of events the session has asked to close the transport
/// once if it is closing or closed, and never otherwise; it has asked to
/// stop once if it is closed, and never otherwise; and the action just
/// before stopping was the closing.
pub proof fn lemma_closes_once(start: SessionView, events: Seq<Event>)
    requires
        start.state == SessionState::AwaitingCapability,
    ensures
        ({
            let end = start.after_all(events);
            let actions = issued(start, events);
            &&& closings(actions) == if end.state == SessionState::Closing || end.state
                == SessionState::Closed {
                1nat
            } else {
                0nat
            }
            &&& count(actions, Action::Stop) == if end.state == SessionState::Closed {
                1nat
            } else {
                0nat
            }
            &&& forall|k: int|
                0 <= k < actions.len() && #[trigger] actions[k] == Action::Stop ==> k > 0
                    && actions[k - 1] is Close
        }),
{
    lemma_closing_balanced(start, events);
}

/// Whether a session is on a path that never touches privilege: it answers
/// a capability without a child, or it is closing, or closed.
pub open spec fn is_harmless(session: SessionView) -> bool {
    session.state is Serving || session.state == SessionState::Closing || session.state
        == SessionState::Closed
}

/// Only a request for a shell by a known account leads to privilege.
///
/// The one event that takes a waiting session towards admission is the
/// request for a shell, and only if the account to run as is known. After
/// any other first event the session is harmless, and a harmless session
/// stays so: whatever is reported to it, it never asks for admission and
/// never for anything that changes or uses privilege.
pub proof fn lemma_only_a_shell_reaches_privilege(
    start: SessionView,
    first: Event,
    events: Seq<Event>,
    k: int,
)
    requires
        start.state == SessionState::AwaitingCapability,
        start.accepts(first),
        !(first == Event::Request(Capability::Shell) && start.identity_resolved),
        0 <= k < issued(start.after(first), events).len(),
    ensures
        is_harmless(start.after(first)),
        is_harmless(start.after(first).after_all(events)),
        !issued(start.after(first), events)[k].is_privileged(),
        issued(start.after(first), events)[k] != Action::AcquireGate,
        issued(start.after(first), events)[k] != Action::ReleaseGate,
{
    lemma_harmless_stays(start.after(first), events);
}

proof fn lemma_harmless_stays(start: SessionView, events: Seq<Event>)
    requires
        is_harmless(start),
    ensures
        is_harmless(start.after_all(events)),
        forall|k: int|
            0 <= k < issued(start, events).len() ==> !(#[trigger] issued(
                start,
                events,
            )[k]).is_privileged() && issued(start, events)[k] != Action::AcquireGate && issued(
                start,
                events,
            )[k] != Action::ReleaseGate,
    decreases events.len(),
{
    if events.len() > 0 {
        lemma_harmless_stays(start, events.drop_last());
    }
}

} // verus!
