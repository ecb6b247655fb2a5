//! Taking on an account and giving the original privilege back.
//!
//! The library decides which changes are made and in which order; the
//! program around it makes the system calls. The order matters: a process
//! that has lowered its effective user id may no longer change its groups.
//! The rules of the system that the order rests on are written down here as
//! [`Credentials`], and the plans are proved against them.

use vstd::prelude::*;
use crate::identity::Identity;

verus! {

/// One change of the credentials of a process.
#[derive(Debug)]
pub enum PrivilegeOp {
    /// Replace the supplementary groups by these. An empty list clears them.
    SetGroups(Vec<u32>),
    /// Set the effective group id.
    SetEffectiveGid(u32),
    /// Set the effective user id.
    SetEffectiveUid(u32),
    /// Set the group id for good: real, effective and saved.
    SetGid(u32),
    /// Set the user id for good: real, effective and saved.
    SetUid(u32),
}

/// A [`PrivilegeOp`] as mathematical values.
pub enum PrivilegeOpView {
    SetGroups(Seq<u32>),
    SetEffectiveGid(u32),
    SetEffectiveUid(u32),
    SetGid(u32),
    SetUid(u32),
}

impl View for PrivilegeOp {
    type V = PrivilegeOpView;

    open spec fn view(&self) -> PrivilegeOpView {
        match self {
            PrivilegeOp::SetGroups(groups) => PrivilegeOpView::SetGroups(groups@),
            PrivilegeOp::SetEffectiveGid(gid) => PrivilegeOpView::SetEffectiveGid(*gid),
            PrivilegeOp::SetEffectiveUid(uid) => PrivilegeOpView::SetEffectiveUid(*uid),
            PrivilegeOp::SetGid(gid) => PrivilegeOpView::SetGid(*gid),
            PrivilegeOp::SetUid(uid) => PrivilegeOpView::SetUid(*uid),
        }
    }
}

/// The views of a list of changes.
pub open spec fn plan_view(plan: Seq<PrivilegeOp>) -> Seq<PrivilegeOpView> {
    Seq::new(plan.len(), |i: int| plan[i]@)
}

/// The credentials of a process, as the system keeps them.
pub struct Credentials {
    pub real_uid: u32,
    pub effective_uid: u32,
    pub saved_uid: u32,
    pub real_gid: u32,
    pub effective_gid: u32,
    pub saved_gid: u32,
    pub groups: Seq<u32>,
}

impl Credentials {
    /// Whether the process may set any id: its effective user is the
    /// superuser.
    pub open spec fn is_privileged(self) -> bool {
        self.effective_uid == 0
    }

    /// Whether the system lets a process with these credentials make the
    /// change.
    pub open spec fn permits(self, op: PrivilegeOpView) -> bool {
        match op {
            PrivilegeOpView::SetGroups(_) => self.is_privileged(),
            PrivilegeOpView::SetEffectiveGid(gid) => self.is_privileged() || gid == self.real_gid
                || gid == self.saved_gid,
            PrivilegeOpView::SetEffectiveUid(uid) => self.is_privileged() || uid == self.real_uid
                || uid == self.saved_uid,
            PrivilegeOpView::SetGid(gid) => self.is_privileged() || gid == self.real_gid || gid
                == self.saved_gid,
            PrivilegeOpView::SetUid(uid) => self.is_privileged() || uid == self.real_uid || uid
                == self.saved_uid,
        }
    }

    /// The credentials after the change. A change that is not permitted
    /// fails and leaves them as they are.
    pub open spec fn after(self, op: PrivilegeOpView) -> Credentials {
        if !self.permits(op) {
            self
        } else {
            match op {
                PrivilegeOpView::SetGroups(groups) => Credentials { groups, ..self },
                PrivilegeOpView::SetEffectiveGid(gid) => Credentials {
                    effective_gid: gid,
                    ..self
                },
                PrivilegeOpView::SetEffectiveUid(uid) => Credentials {
                    effective_uid: uid,
                    ..self
                },
                PrivilegeOpView::SetGid(gid) => if self.is_privileged() {
                    Credentials { real_gid: gid, effective_gid: gid, saved_gid: gid, ..self }
                } else {
                    Credentials { effective_gid: gid, ..self }
                },
                PrivilegeOpView::SetUid(uid) => if self.is_privileged() {
                    Credentials { real_uid: uid, effective_uid: uid, saved_uid: uid, ..self }
                } else {
                    Credentials { effective_uid: uid, ..self }
                },
            }
        }
    }

    /// The credentials after the changes of `plan`, made in order.
    pub open spec fn after_all(self, plan: Seq<PrivilegeOpView>) -> Credentials
        decreases plan.len(),
    {
        if plan.len() == 0 {
            self
        } else {
            self.after_all(plan.drop_last()).after(plan.last())
        }
    }

    /// Whether every change of `plan` is permitted at the moment at which it
    /// is made.
    pub open spec fn permits_all(self, plan: Seq<PrivilegeOpView>) -> bool
        decreases plan.len(),
    {
        if plan.len() == 0 {
            true
        } else {
            self.permits_all(plan.drop_last()) && self.after_all(plan.drop_last()).permits(
                plan.last(),
            )
        }
    }
}

/// The changes that make a process act as `uid`, `gid` and `groups`, and
/// that can be undone: groups first, then the effective group id, and the
/// effective user id last.
pub open spec fn assume_changes(uid: u32, gid: u32, groups: Seq<u32>) -> Seq<PrivilegeOpView> {
    seq![
        PrivilegeOpView::SetGroups(groups),
        PrivilegeOpView::SetEffectiveGid(gid),
        PrivilegeOpView::SetEffectiveUid(uid),
    ]
}

/// The changes that undo [`assume_changes`], in the opposite order: the
/// effective user id first, then the effective group id, and the groups
/// last.
pub open spec fn restore_changes(uid: u32, gid: u32, groups: Seq<u32>) -> Seq<PrivilegeOpView> {
    seq![
        PrivilegeOpView::SetEffectiveUid(uid),
        PrivilegeOpView::SetEffectiveGid(gid),
        PrivilegeOpView::SetGroups(groups),
    ]
}

/// The changes that make a process `uid`, `gid` and `groups` for good:
/// groups first, then the group id, and the user id last.
pub open spec fn drop_changes(uid: u32, gid: u32, groups: Seq<u32>) -> Seq<PrivilegeOpView> {
    seq![
        PrivilegeOpView::SetGroups(groups),
        PrivilegeOpView::SetGid(gid),
        PrivilegeOpView::SetUid(uid),
    ]
}

/// A copy of `ids`.
pub fn copy_ids(ids: &Vec<u32>) -> (copy: Vec<u32>)
    ensures
        copy@ == ids@,
{
    let mut copy: Vec<u32> = Vec::new();
    let mut i: usize = 0;
    while i < ids.len()
        invariant
            i <= ids.len(),
            copy@ == ids@.take(i as int),
        decreases ids.len() - i,
    {
        copy.push(ids[i]);
        i = i + 1;
        assert(ids@.take(i as int) == ids@.take(i as int - 1).push(ids@[i as int - 1]));
    }
    assert(ids@.take(i as int) == ids@);
    copy
}

/// The privilege that a process had before it took on an account.
///
/// A snapshot is taken once for each taking on, and it is used up by the one
/// plan that gives the privilege back: it cannot be copied.
#[derive(Debug)]
pub struct PrivilegeSnapshot {
    original_uid: u32,
    original_gid: u32,
    original_supplementary_gids: Vec<u32>,
}

/// A [`PrivilegeSnapshot`] as mathematical values.
pub struct PrivilegeSnapshotView {
    pub original_uid: u32,
    pub original_gid: u32,
    pub original_supplementary_gids: Seq<u32>,
}

impl View for PrivilegeSnapshot {
    type V = PrivilegeSnapshotView;

    closed spec fn view(&self) -> PrivilegeSnapshotView {
        PrivilegeSnapshotView {
            original_uid: self.original_uid,
            original_gid: self.original_gid,
            original_supplementary_gids: self.original_supplementary_gids@,
        }
    }
}

impl PrivilegeSnapshotView {
    /// The snapshot of a process with these credentials.
    pub open spec fn of(credentials: Credentials) -> PrivilegeSnapshotView {
        PrivilegeSnapshotView {
            original_uid: credentials.effective_uid,
            original_gid: credentials.effective_gid,
            original_supplementary_gids: credentials.groups,
        }
    }
}

impl PrivilegeSnapshot {
    /// Records the effective user id, the effective group id and the
    /// supplementary groups that the process has now.
    pub fn capture(effective_uid: u32, effective_gid: u32, groups: Vec<u32>) -> (snapshot:
        PrivilegeSnapshot)
        ensures
            snapshot@ == (PrivilegeSnapshotView {
                original_uid: effective_uid,
                original_gid: effective_gid,
                original_supplementary_gids: groups@,
            }),
    {
        PrivilegeSnapshot {
            original_uid: effective_uid,
            original_gid: effective_gid,
            original_supplementary_gids: groups,
        }
    }

    /// Whether the process still has the privilege that was recorded:
    /// `effective_uid`, `effective_gid` and `groups` are what it has now.
    pub fn is_current(&self, effective_uid: u32, effective_gid: u32, groups: &Vec<u32>) -> (current:
        bool)
        ensures
            current == (self@ == (PrivilegeSnapshotView {
                original_uid: effective_uid,
                original_gid: effective_gid,
                original_supplementary_gids: groups@,
            })),
    {
        if self.original_uid != effective_uid || self.original_gid != effective_gid
            || self.original_supplementary_gids.len() != groups.len() {
            return false;
        }
        let mut i: usize = 0;
        while i < groups.len()
            invariant
                i <= groups.len() == self.original_supplementary_gids.len(),
                forall|j: int| 0 <= j < i ==> self.original_supplementary_gids@[j] == groups@[j],
            decreases groups.len() - i,
        {
            if self.original_supplementary_gids[i] != groups[i] {
                return false;
            }
            i = i + 1;
        }
        assert(self.original_supplementary_gids@ =~= groups@);
        true
    }

    /// The changes that are left to make for a process that has
    /// `effective_uid`, `effective_gid` and `groups` now: none if that is the
    /// recorded privilege, and all of [`PrivilegeSnapshot::restore`]
    /// otherwise. The snapshot is used up.
    pub fn restore_from(self, effective_uid: u32, effective_gid: u32, groups: &Vec<u32>) -> (plan:
        Vec<PrivilegeOp>)
        ensures
            plan_view(plan@) == if self@ == (PrivilegeSnapshotView {
                original_uid: effective_uid,
                original_gid: effective_gid,
                original_supplementary_gids: groups@,
            }) {
                Seq::<PrivilegeOpView>::empty()
            } else {
                restore_changes(
                    self@.original_uid,
                    self@.original_gid,
                    self@.original_supplementary_gids,
                )
            },
    {
        if self.is_current(effective_uid, effective_gid, groups) {
            let plan: Vec<PrivilegeOp> = Vec::new();
            assert(plan_view(plan@) =~= Seq::<PrivilegeOpView>::empty());
            plan
        } else {
            self.restore()
        }
    }

    /// The changes that give the recorded privilege back, in the order in
    /// which they have to be made. The snapshot is used up.
    pub fn restore(self) -> (plan: Vec<PrivilegeOp>)
        ensures
            plan_view(plan@) == restore_changes(
                self@.original_uid,
                self@.original_gid,
                self@.original_supplementary_gids,
            ),
    {
        let mut plan: Vec<PrivilegeOp> = Vec::new();
        plan.push(PrivilegeOp::SetEffectiveUid(self.original_uid));
        plan.push(PrivilegeOp::SetEffectiveGid(self.original_gid));
        plan.push(PrivilegeOp::SetGroups(self.original_supplementary_gids));
        assert(plan_view(plan@) =~= restore_changes(
            self@.original_uid,
            self@.original_gid,
            self@.original_supplementary_gids,
        ));
        plan
    }
}

/// The changes that make the calling process act as `identity`, in the order
/// in which they have to be made. If one of them fails, the process must not
/// go on as it is: the snapshot has to be restored.
pub fn assume_identity(identity: &Identity) -> (plan: Vec<PrivilegeOp>)
    ensures
        plan_view(plan@) == assume_changes(
            identity@.uid,
            identity@.primary_gid,
            identity@.supplementary_gids,
        ),
{
    let mut plan: Vec<PrivilegeOp> = Vec::new();
    plan.push(PrivilegeOp::SetGroups(copy_ids(identity.supplementary_gids())));
    plan.push(PrivilegeOp::SetEffectiveGid(identity.primary_gid()));
    plan.push(PrivilegeOp::SetEffectiveUid(identity.uid()));
    assert(plan_view(plan@) =~= assume_changes(
        identity@.uid,
        identity@.primary_gid,
        identity@.supplementary_gids,
    ));
    plan
}

/// The changes by which a child process becomes `identity` for good, in the
/// order in which they have to be made. The groups are set even when the
/// list is empty, so that the child keeps none of the daemon's.
pub fn drop_to(identity: &Identity) -> (plan: Vec<PrivilegeOp>)
    ensures
        plan_view(plan@) == drop_changes(
            identity@.uid,
            identity@.primary_gid,
            identity@.supplementary_gids,
        ),
{
    let mut plan: Vec<PrivilegeOp> = Vec::new();
    plan.push(PrivilegeOp::SetGroups(copy_ids(identity.supplementary_gids())));
    plan.push(PrivilegeOp::SetGid(identity.primary_gid()));
    plan.push(PrivilegeOp::SetUid(identity.uid()));
    assert(plan_view(plan@) =~= drop_changes(
        identity@.uid,
        identity@.primary_gid,
        identity@.supplementary_gids,
    ));
    plan
}

proof fn lemma_three(credentials: Credentials, a: PrivilegeOpView, b: PrivilegeOpView, c:
    PrivilegeOpView)
    ensures
        credentials.after_all(seq![a, b, c]) == credentials.after(a).after(b).after(c),
        credentials.permits_all(seq![a, b, c]) == (credentials.permits(a) && credentials.after(
            a,
        ).permits(b) && credentials.after(a).after(b).permits(c)),
{
    let three = seq![a, b, c];
    let two = seq![a, b];
    let one = seq![a];
    assert(three.drop_last() == two);
    assert(two.drop_last() == one);
    let none = Seq::<PrivilegeOpView>::empty();
    assert(one.drop_last() == none);
    assert(credentials.after_all(none) == credentials);
    assert(credentials.permits_all(none));
    assert(credentials.after_all(one) == credentials.after(a));
    assert(credentials.after_all(two) == credentials.after(a).after(b));
    assert(credentials.permits_all(one) == credentials.permits(a));
    assert(credentials.permits_all(two) == (credentials.permits(a) && credentials.after(
        a,
    ).permits(b)));
}

/// Taking on an account and giving the privilege back leaves a process as
/// it was.
///
/// For a process whose effective user is the superuser: every change of the
/// plan that takes on `uid`, `gid` and `groups` is permitted when it is
/// made, and afterwards the process acts as these. Every change of the plan
/// that restores the snapshot taken before is permitted too, and afterwards
/// the credentials are the ones that the process started with.
pub proof fn lemma_assume_then_restore(
    credentials: Credentials,
    uid: u32,
    gid: u32,
    groups: Seq<u32>,
)
    requires
        credentials.is_privileged(),
        credentials.real_uid == 0 || credentials.saved_uid == 0,
    ensures
        ({
            let snapshot = PrivilegeSnapshotView::of(credentials);
            let assumed = credentials.after_all(assume_changes(uid, gid, groups));
            let restoring = restore_changes(
                snapshot.original_uid,
                snapshot.original_gid,
                snapshot.original_supplementary_gids,
            );
            &&& credentials.permits_all(assume_changes(uid, gid, groups))
            &&& assumed.effective_uid == uid
            &&& assumed.effective_gid == gid
            &&& assumed.groups == groups
            &&& assumed.permits_all(restoring)
            &&& assumed.after_all(restoring) == credentials
        }),
{
    let snapshot = PrivilegeSnapshotView::of(credentials);
    lemma_three(
        credentials,
        PrivilegeOpView::SetGroups(groups),
        PrivilegeOpView::SetEffectiveGid(gid),
        PrivilegeOpView::SetEffectiveUid(uid),
    );
    let assumed = credentials.after_all(assume_changes(uid, gid, groups));
    lemma_three(
        assumed,
        PrivilegeOpView::SetEffectiveUid(snapshot.original_uid),
        PrivilegeOpView::SetEffectiveGid(snapshot.original_gid),
        PrivilegeOpView::SetGroups(snapshot.original_supplementary_gids),
    );
}

/// Why the user id comes last: a process that lowers its effective user id
/// first is refused the changes of its groups.
pub proof fn lemma_user_first_is_refused(
    credentials: Credentials,
    uid: u32,
    gid: u32,
    groups: Seq<u32>,
)
    requires
        credentials.is_privileged(),
        uid != 0,
    ensures
        !credentials.after(PrivilegeOpView::SetEffectiveUid(uid)).permits(
            PrivilegeOpView::SetGroups(groups),
        ),
        !credentials.after(PrivilegeOpView::SetUid(uid)).permits(
            PrivilegeOpView::SetGroups(groups),
        ),
{
}

/// A child that drops to an account keeps nothing of the daemon.
///
/// For a process whose effective user is the superuser: every change of the
/// plan that drops to `uid`, `gid` and `groups` is permitted when it is
/// made. Afterwards the real, effective and saved ids are `uid` and `gid`,
/// and the supplementary groups are `groups`, whatever they were before: in
/// particular none at all when `groups` is empty. And a process that has
/// dropped to another user than the superuser cannot get anything back.
pub proof fn lemma_drop_is_complete(credentials: Credentials, uid: u32, gid: u32, groups: Seq<u32>)
    requires
        credentials.is_privileged(),
    ensures
        ({
            let dropped = credentials.after_all(drop_changes(uid, gid, groups));
            &&& credentials.permits_all(drop_changes(uid, gid, groups))
            &&& dropped.real_uid == uid && dropped.effective_uid == uid && dropped.saved_uid
                == uid
            &&& dropped.real_gid == gid && dropped.effective_gid == gid && dropped.saved_gid
                == gid
            &&& dropped.groups == groups
            &&& groups.len() == 0 ==> dropped.groups.len() == 0
            &&& uid != 0 ==> forall|op: PrivilegeOpView| #[trigger]
                dropped.permits(op) ==> dropped.after(op) == dropped
        }),
{
    lemma_three(
        credentials,
        PrivilegeOpView::SetGroups(groups),
        PrivilegeOpView::SetGid(gid),
        PrivilegeOpView::SetUid(uid),
    );
}

} // verus!
