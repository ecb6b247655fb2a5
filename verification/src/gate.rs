//! A gate that admits one session at a time.
//!
//! The privilege of a process belongs to the process as a whole, not to one
//! of its tasks. So every session that changes it has to pass this gate
//! first, and this gate admits one session at a time. It serialises a
//! resource that is truly shared; it is no tuning knob. Sessions that find
//! it taken wait in the order in which they came.

use vstd::prelude::*;

verus! {

/// The proof of having been admitted. Only a [`Gate`] makes one, and it takes
/// it back on release: a token cannot be copied.
#[derive(Debug)]
pub struct GateToken {
    session: u64,
}

impl View for GateToken {
    type V = u64;

    closed spec fn view(&self) -> u64 {
        self.session
    }
}

impl GateToken {
    /// The session that this token admits.
    pub fn session(&self) -> (session: u64)
        ensures
            session == self@,
    {
        self.session
    }
}

/// The sessions of `waiting` other than `session`, in their order.
pub open spec fn without(waiting: Seq<u64>, session: u64) -> Seq<u64>
    decreases waiting.len(),
{
    if waiting.len() == 0 {
        waiting
    } else if waiting.last() == session {
        without(waiting.drop_last(), session)
    } else {
        without(waiting.drop_last(), session).push(waiting.last())
    }
}

/// A gate with its history.
pub struct GateView {
    /// The session that is inside, if one is.
    pub holder: Option<u64>,
    /// The sessions that wait, the one that came first in front.
    pub waiting: Seq<u64>,
    /// How many tokens have been handed out.
    pub admitted: nat,
    /// How many tokens have been taken back.
    pub returned: nat,
}

impl GateView {
    /// A gate that nobody has passed yet.
    pub open spec fn initial() -> GateView {
        GateView { holder: None, waiting: Seq::empty(), admitted: 0, returned: 0 }
    }

    /// Whether `session` is inside or waits.
    pub open spec fn knows(self, session: u64) -> bool {
        self.holder == Some(session) || self.waiting.contains(session)
    }

    /// Whether a request of `session` is answered with a token.
    pub open spec fn admits(self, session: u64) -> bool {
        self.holder is None
    }

    /// This gate after `session` asked to be admitted: it is inside if this
    /// gate was free, and otherwise it waits at the back, unless this gate
    /// knows it already.
    pub open spec fn after_acquire(self, session: u64) -> GateView {
        if self.admits(session) {
            GateView { holder: Some(session), admitted: self.admitted + 1, ..self }
        } else if self.knows(session) {
            self
        } else {
            GateView { waiting: self.waiting.push(session), ..self }
        }
    }

    /// Whether the token of `session` is the one that is out.
    pub open spec fn releases(self, session: u64) -> bool {
        self.holder == Some(session)
    }

    /// The session that is admitted when `session` gives its token back.
    pub open spec fn successor(self, session: u64) -> Option<u64> {
        if self.releases(session) && self.waiting.len() > 0 {
            Some(self.waiting[0])
        } else {
            None
        }
    }

    /// This gate after `session` gave its token back: the session that waited
    /// longest is inside now, if one waited. A token that is not the one
    /// that is out changes nothing.
    pub open spec fn after_release(self, session: u64) -> GateView {
        if !self.releases(session) {
            self
        } else if self.waiting.len() > 0 {
            GateView {
                holder: Some(self.waiting[0]),
                waiting: self.waiting.drop_first(),
                admitted: self.admitted + 1,
                returned: self.returned + 1,
            }
        } else {
            GateView { holder: None, returned: self.returned + 1, ..self }
        }
    }

    /// This gate after `session` gave up waiting.
    pub open spec fn after_withdraw(self, session: u64) -> GateView {
        GateView { waiting: without(self.waiting, session), ..self }
    }

    /// How many tokens are out.
    pub open spec fn outstanding(self) -> int {
        self.admitted - self.returned
    }

    /// What holds of every gate: one token is out exactly when a session is
    /// inside, and none otherwise, so never more than one; nobody waits at a
    /// free gate; nobody waits twice, and nobody waits who is inside.
    pub open spec fn exclusive(self) -> bool {
        &&& self.outstanding() == if self.holder is Some {
            1int
        } else {
            0int
        }
        &&& self.holder is None ==> self.waiting.len() == 0
        &&& self.waiting.no_duplicates()
        &&& self.holder is Some ==> !self.waiting.contains(self.holder->Some_0)
    }
}

/// The one gate of a process.
pub struct Gate {
    holder: Option<u64>,
    waiting: Vec<u64>,
    admitted: Ghost<nat>,
    returned: Ghost<nat>,
}

impl View for Gate {
    type V = GateView;

    closed spec fn view(&self) -> GateView {
        GateView {
            holder: self.holder,
            waiting: self.waiting@,
            admitted: self.admitted@,
            returned: self.returned@,
        }
    }
}

impl Gate {
    /// A free gate.
    pub fn new() -> (gate: Gate)
        ensures
            gate@ == GateView::initial(),
    {
        Gate { holder: None, waiting: Vec::new(), admitted: Ghost(0), returned: Ghost(0) }
    }

    /// The session that is inside, if one is.
    pub fn holder(&self) -> (holder: Option<u64>)
        ensures
            holder == self@.holder,
    {
        self.holder
    }

    /// How many sessions wait.
    pub fn waiting(&self) -> (count: usize)
        ensures
            count == self@.waiting.len(),
    {
        self.waiting.len()
    }

    /// Whether `session` waits here.
    pub fn is_waiting(&self, session: u64) -> (waits: bool)
        ensures
            waits == self@.waiting.contains(session),
    {
        let mut i: usize = 0;
        while i < self.waiting.len()
            invariant
                i <= self.waiting.len(),
                forall|j: int| 0 <= j < i ==> self.waiting@[j] != session,
            decreases self.waiting.len() - i,
        {
            if self.waiting[i] == session {
                return true;
            }
            i = i + 1;
        }
        false
    }

    /// Asks for `session` to be admitted.
    ///
    /// A free gate admits it at once and hands out the token. At a taken
    /// gate the session is put at the back of those that wait, and gets its
    /// token when its turn has come, from [`Gate::release`].
    pub fn acquire(&mut self, session: u64) -> (token: Option<GateToken>)
        ensures
            final(self)@ == old(self)@.after_acquire(session),
            old(self)@.admits(session) ==> token is Some && token->Some_0@ == session,
            !old(self)@.admits(session) ==> token is None,
    {
        match self.holder {
            None => {
                self.holder = Some(session);
                proof {
                    self.admitted@ = self.admitted@ + 1;
                }
                Some(GateToken { session })
            },
            Some(inside) => {
                if inside != session && !self.is_waiting(session) {
                    self.waiting.push(session);
                }
                None
            },
        }
    }

    /// Takes the token back and admits the session that has waited longest,
    /// if one waits: the result is its token.
    pub fn release(&mut self, token: GateToken) -> (next: Option<GateToken>)
        ensures
            final(self)@ == old(self)@.after_release(token@),
            match old(self)@.successor(token@) {
                Some(session) => next is Some && next->Some_0@ == session,
                None => next is None,
            },
    {
        if self.holder != Some(token.session) {
            return None;
        }
        proof {
            self.returned@ = self.returned@ + 1;
        }
        if self.waiting.len() > 0 {
            let session = self.waiting.remove(0);
            assert(self.waiting@ == old(self).waiting@.drop_first());
            self.holder = Some(session);
            proof {
                self.admitted@ = self.admitted@ + 1;
            }
            Some(GateToken { session })
        } else {
            self.holder = None;
            None
        }
    }

    /// Takes `session` out of those that wait: it has given up.
    pub fn withdraw(&mut self, session: u64)
        ensures
            final(self)@ == old(self)@.after_withdraw(session),
    {
        let mut kept: Vec<u64> = Vec::new();
        let mut i: usize = 0;
        while i < self.waiting.len()
            invariant
                i <= self.waiting.len(),
                kept@ == without(self.waiting@.take(i as int), session),
            decreases self.waiting.len() - i,
        {
            let other = self.waiting[i];
            assert(self.waiting@.take(i + 1).drop_last() == self.waiting@.take(i as int));
            if other != session {
                kept.push(other);
            }
            i = i + 1;
        }
        assert(self.waiting@.take(i as int) == self.waiting@);
        self.waiting = kept;
    }
}

/// What can be asked of a gate.
pub enum GateRequest {
    Acquire(u64),
    Release(u64),
    Withdraw(u64),
}

impl GateView {
    /// This gate after one request.
    pub open spec fn after(self, request: GateRequest) -> GateView {
        match request {
            GateRequest::Acquire(session) => self.after_acquire(session),
            GateRequest::Release(session) => self.after_release(session),
            GateRequest::Withdraw(session) => self.after_withdraw(session),
        }
    }

    /// This gate after a run of requests, oldest first.
    pub open spec fn after_all(self, requests: Seq<GateRequest>) -> GateView
        decreases requests.len(),
    {
        if requests.len() == 0 {
            self
        } else {
            self.after_all(requests.drop_last()).after(requests.last())
        }
    }
}

proof fn lemma_without(waiting: Seq<u64>, session: u64)
    ensures
        forall|other: u64| #[trigger]
            without(waiting, session).contains(other) <==> waiting.contains(other) && other
                != session,
        waiting.no_duplicates() ==> without(waiting, session).no_duplicates(),
    decreases waiting.len(),
{
    let kept = without(waiting, session);
    if waiting.len() > 0 {
        let front = waiting.drop_last();
        let last = waiting.last();
        lemma_without(front, session);
        let kept_front = without(front, session);
        assert forall|other: u64| #[trigger]
            kept.contains(other) <==> waiting.contains(other) && other != session by {
            if kept.contains(other) {
                let i = choose|i: int| 0 <= i < kept.len() && kept[i] == other;
                if last != session && i == kept.len() - 1 {
                    assert(waiting[waiting.len() - 1] == other);
                } else {
                    assert(kept_front[i] == other);
                    assert(kept_front.contains(other));
                    let j = choose|j: int| 0 <= j < front.len() && front[j] == other;
                    assert(waiting[j] == other);
                }
            }
            if waiting.contains(other) && other != session {
                let j = choose|j: int| 0 <= j < waiting.len() && waiting[j] == other;
                if j < front.len() {
                    assert(front[j] == other);
                    assert(kept_front.contains(other));
                    let i = choose|i: int| 0 <= i < kept_front.len() && kept_front[i] == other;
                    assert(kept[i] == other);
                } else {
                    assert(kept[kept.len() - 1] == other);
                }
            }
        }
        if waiting.no_duplicates() {
            assert forall|i: int, j: int| 0 <= i < front.len() && 0 <= j < front.len() && i
                != j implies front[i] != front[j] by {
                assert(waiting[i] != waiting[j]);
            }
            if last != session {
                assert forall|i: int, j: int| 0 <= i < kept.len() && 0 <= j < kept.len() && i
                    != j implies kept[i] != kept[j] by {
                    if i == kept.len() - 1 || j == kept.len() - 1 {
                        let inner = if i == kept.len() - 1 {
                            j
                        } else {
                            i
                        };
                        assert(kept_front[inner] == kept[inner]);
                        assert(kept_front.contains(kept[inner]));
                        let at = choose|at: int| 0 <= at < front.len() && front[at] == kept[inner];
                        assert(waiting[at] != waiting[waiting.len() - 1]);
                    } else {
                        assert(kept_front[i] != kept_front[j]);
                    }
                }
            }
        }
    }
}

/// One request leaves a gate exclusive.
pub proof fn lemma_request_keeps_exclusive(gate: GateView, request: GateRequest)
    requires
        gate.exclusive(),
    ensures
        gate.after(request).exclusive(),
{
    let next = gate.after(request);
    match request {
        GateRequest::Acquire(session) => {
            if !gate.admits(session) && !gate.knows(session) {
                assert forall|i: int, j: int| 0 <= i < next.waiting.len() && 0 <= j
                    < next.waiting.len() && i != j implies next.waiting[i] != next.waiting[j] by {
                    if i < gate.waiting.len() {
                        assert(gate.waiting.contains(gate.waiting[i]));
                    }
                    if j < gate.waiting.len() {
                        assert(gate.waiting.contains(gate.waiting[j]));
                    }
                }
                if next.waiting.contains(gate.holder->Some_0) {
                    let i = choose|i: int| 0 <= i < next.waiting.len() && next.waiting[i]
                        == gate.holder->Some_0;
                    if i < gate.waiting.len() {
                        assert(gate.waiting.contains(gate.waiting[i]));
                    }
                }
            }
        },
        GateRequest::Release(session) => {
            if gate.releases(session) && gate.waiting.len() > 0 {
                assert forall|i: int, j: int| 0 <= i < next.waiting.len() && 0 <= j
                    < next.waiting.len() && i != j implies next.waiting[i] != next.waiting[j] by {
                    assert(gate.waiting[i + 1] != gate.waiting[j + 1]);
                }
                if next.waiting.contains(gate.waiting[0]) {
                    let i = choose|i: int| 0 <= i < next.waiting.len() && next.waiting[i]
                        == gate.waiting[0];
                    assert(gate.waiting[i + 1] != gate.waiting[0]);
                }
            }
        },
        GateRequest::Withdraw(session) => {
            lemma_without(gate.waiting, session);
            if gate.holder is None {
                assert(gate.waiting == Seq::<u64>::empty());
            }
        },
    }
}

/// Never more than one session is inside.
///
/// After any run of requests on a new gate, the tokens that are out (those
/// handed out less those taken back) are one if a session is inside and none
/// if nobody is. A counter of the sessions inside never exceeds 1.
pub proof fn lemma_at_most_one_inside(requests: Seq<GateRequest>)
    ensures
        GateView::initial().after_all(requests).exclusive(),
        0 <= GateView::initial().after_all(requests).outstanding() <= 1,
    decreases requests.len(),
{
    if requests.len() > 0 {
        lemma_at_most_one_inside(requests.drop_last());
        lemma_request_keeps_exclusive(
            GateView::initial().after_all(requests.drop_last()),
            requests.last(),
        );
    }
}

} // verus!
