//! Starting the child process of a session.
//!
//! Two things are decided here. What the child does between the fork and the
//! replacement of its image is a list of steps ([`child_plan`]), made before
//! the fork, with an exit status for each step that can fail. And what the
//! parent does is a small machine ([`Launch`]) that is told how each system
//! call went and that never forgets a descriptor or a child on a path of
//! failure.

use vstd::prelude::*;
use crate::errors::LaunchError;
use crate::identity::{Identity, IdentityView};
use crate::privilege::{
    drop_changes, drop_to, lemma_drop_is_complete, plan_view, Credentials, PrivilegeOp,
    PrivilegeOpView,
};
use crate::text::{same_chars, to_chars};

verus! {

/// How the child is attached to the daemon.
#[derive(Clone, Copy, Debug, PartialEq, Eq, Structural)]
pub enum TerminalMode {
    /// Through a pseudo-terminal: the session is interactive.
    Pty,
    /// Through three pipes, where no pseudo-terminal can be had.
    Pipes,
}

/// The descriptors that the parent holds for a child.
#[derive(Clone, Copy, Debug, PartialEq, Eq, Structural)]
pub enum Terminal {
    /// The master side of a pseudo-terminal.
    Pty { master: i32 },
    /// The parent's ends of the pipes to the child's standard input, from
    /// its standard output, and from its standard error.
    Pipes { input: i32, output: i32, errors: i32 },
}

impl Terminal {
    /// Which kind of terminal this is.
    pub open spec fn mode(self) -> TerminalMode {
        match self {
            Terminal::Pty { .. } => TerminalMode::Pty,
            Terminal::Pipes { .. } => TerminalMode::Pipes,
        }
    }

    /// The descriptors of the terminal, each once.
    pub open spec fn descriptors(self) -> Seq<i32> {
        match self {
            Terminal::Pty { master } => seq![master],
            Terminal::Pipes { input, output, errors } => seq![input, output, errors],
        }
    }

    /// Which kind of terminal this is.
    pub fn kind(&self) -> (mode: TerminalMode)
        ensures
            mode == self.mode(),
    {
        match self {
            Terminal::Pty { .. } => TerminalMode::Pty,
            Terminal::Pipes { .. } => TerminalMode::Pipes,
        }
    }

    /// The descriptors to close when the terminal is given up.
    pub fn to_close(&self) -> (descriptors: Vec<i32>)
        ensures
            descriptors@ == self.descriptors(),
    {
        let mut descriptors: Vec<i32> = Vec::new();
        match self {
            Terminal::Pty { master } => {
                descriptors.push(*master);
            },
            Terminal::Pipes { input, output, errors } => {
                descriptors.push(*input);
                descriptors.push(*output);
                descriptors.push(*errors);
            },
        }
        assert(descriptors@ =~= self.descriptors());
        descriptors
    }
}

/// One live child: its process id and the descriptors that lead to it.
///
/// A handle is made when a launch has succeeded and is used up when the
/// session lets go of the child: it cannot be copied, so nothing is closed
/// or waited for twice.
#[derive(Debug)]
pub struct SessionHandle {
    pid: i32,
    terminal: Terminal,
}

/// A [`SessionHandle`] as mathematical values.
pub struct SessionHandleView {
    pub pid: i32,
    pub terminal: Terminal,
}

impl View for SessionHandle {
    type V = SessionHandleView;

    closed spec fn view(&self) -> SessionHandleView {
        SessionHandleView { pid: self.pid, terminal: self.terminal }
    }
}

impl SessionHandle {
    /// The handle of the child `pid` that is reached through `terminal`.
    pub fn new(pid: i32, terminal: Terminal) -> (handle: SessionHandle)
        ensures
            handle@ == (SessionHandleView { pid, terminal }),
    {
        SessionHandle { pid, terminal }
    }

    /// The process id of the child.
    pub fn pid(&self) -> (pid: i32)
        ensures
            pid == self@.pid,
    {
        self.pid
    }

    /// The descriptors that lead to the child.
    pub fn terminal(&self) -> (terminal: Terminal)
        ensures
            terminal == self@.terminal,
    {
        self.terminal
    }

    /// Lets go of the child: the result is the process to wait for and the
    /// descriptors to close.
    pub fn release(self) -> (held: (i32, Vec<i32>))
        ensures
            held.0 == self@.pid,
            held.1@ == self@.terminal.descriptors(),
    {
        (self.pid, self.terminal.to_close())
    }
}

/// Whether a check on a child that returned `waited` found it exited. The
/// check returns the child's process id when the child has exited and has
/// been waited for, 0 while it runs, and a negative number when it failed.
pub fn check_exited(waited: i32) -> (exited: bool)
    ensures
        exited == (waited > 0),
{
    waited > 0
}

/// The part of a path behind its last slash: all of it where it has none,
/// nothing where it ends in one.
pub open spec fn file_name(path: Seq<char>) -> Seq<char>
    decreases path.len(),
{
    if path.len() == 0 {
        path
    } else if path.last() == '/' {
        Seq::empty()
    } else {
        file_name(path.drop_last()).push(path.last())
    }
}

/// Whether the shell at `path` is one that is known to take the flag for a
/// login shell.
pub open spec fn takes_login_flag(path: Seq<char>) -> bool {
    let name = file_name(path);
    name == "sh"@ || name == "bash"@ || name == "dash"@ || name == "zsh"@ || name == "ksh"@
}

/// Whether `path` can be handed to the system: it is not empty and holds no
/// zero character.
pub open spec fn is_usable_path(path: Seq<char>) -> bool {
    path.len() > 0 && !path.contains('\0')
}

proof fn lemma_file_name(path: Seq<char>, start: int)
    requires
        0 <= start <= path.len(),
        forall|i: int| start <= i < path.len() ==> path[i] != '/',
        start == 0 || path[start - 1] == '/',
    ensures
        file_name(path) == path.skip(start),
    decreases path.len(),
{
    if path.len() == 0 {
        assert(path.skip(start) == path);
    } else if start == path.len() {
        assert(path.skip(start) == Seq::<char>::empty());
    } else {
        lemma_file_name(path.drop_last(), start);
        assert(path.skip(start) == path.drop_last().skip(start).push(path.last()));
    }
}

/// Tells whether the shell at `path` takes the flag for a login shell.
pub fn login_flag(path: &str) -> (flag: bool)
    ensures
        flag == takes_login_flag(path@),
{
    let mut chars = to_chars(path);
    let mut start: usize = chars.len();
    while start > 0 && chars[start - 1] != '/'
        invariant
            start <= chars.len(),
            forall|i: int| start <= i < chars.len() ==> chars@[i] != '/',
        decreases start,
    {
        start = start - 1;
    }
    proof {
        lemma_file_name(chars@, start as int);
    }
    let name = chars.split_off(start);
    assert(name@ == file_name(path@));
    same_chars(&name, &to_chars("sh")) || same_chars(&name, &to_chars("bash")) || same_chars(
        &name,
        &to_chars("dash"),
    ) || same_chars(&name, &to_chars("zsh")) || same_chars(&name, &to_chars("ksh"))
}

/// Tells whether `path` can be handed to the system.
pub fn usable_path(path: &str) -> (usable: bool)
    ensures
        usable == is_usable_path(path@),
{
    let chars = to_chars(path);
    if chars.len() == 0 {
        return false;
    }
    let mut i: usize = 0;
    while i < chars.len()
        invariant
            i <= chars.len(),
            chars@ == path@,
            forall|j: int| 0 <= j < i ==> chars@[j] != '\0',
        decreases chars.len() - i,
    {
        if chars[i] == '\0' {
            assert(chars@[i as int] == '\0');
            return false;
        }
        i = i + 1;
    }
    true
}

/// One step of the child between the fork and its new image.
#[derive(Debug)]
pub enum ChildOp {
    /// Start a new session, without a controlling terminal.
    NewSession,
    /// Open the slave side of the pseudo-terminal.
    OpenTerminal,
    /// Make the terminal, or the pipe, the standard input.
    RedirectInput,
    /// Make it the standard output.
    RedirectOutput,
    /// Make it the standard error.
    RedirectErrors,
    /// Put the terminal in raw mode, so that every byte passes as it is.
    RawMode,
    /// Make the terminal the controlling terminal.
    ControllingTerminal,
    /// Change to this directory.
    ChangeDirectory(String),
    /// Change the credentials.
    Privilege(PrivilegeOp),
    /// Replace the image by this shell, as a login shell if `login` is set.
    Execute { shell: String, login: bool },
}

/// A [`ChildOp`] as mathematical values.
pub enum ChildOpView {
    NewSession,
    OpenTerminal,
    RedirectInput,
    RedirectOutput,
    RedirectErrors,
    RawMode,
    ControllingTerminal,
    ChangeDirectory(Seq<char>),
    Privilege(PrivilegeOpView),
    Execute { shell: Seq<char>, login: bool },
}

impl View for ChildOp {
    type V = ChildOpView;

    open spec fn view(&self) -> ChildOpView {
        match self {
            ChildOp::NewSession => ChildOpView::NewSession,
            ChildOp::OpenTerminal => ChildOpView::OpenTerminal,
            ChildOp::RedirectInput => ChildOpView::RedirectInput,
            ChildOp::RedirectOutput => ChildOpView::RedirectOutput,
            ChildOp::RedirectErrors => ChildOpView::RedirectErrors,
            ChildOp::RawMode => ChildOpView::RawMode,
            ChildOp::ControllingTerminal => ChildOpView::ControllingTerminal,
            ChildOp::ChangeDirectory(directory) => ChildOpView::ChangeDirectory(directory@),
            ChildOp::Privilege(op) => ChildOpView::Privilege(op@),
            ChildOp::Execute { shell, login } => ChildOpView::Execute {
                shell: shell@,
                login: *login,
            },
        }
    }
}

/// The views of a list of steps.
pub open spec fn steps_view(plan: Seq<ChildOp>) -> Seq<ChildOpView> {
    Seq::new(plan.len(), |i: int| plan[i]@)
}

/// The status with which the child ends when the step fails.
pub open spec fn failure_status(op: ChildOpView) -> u8 {
    match op {
        ChildOpView::NewSession => 71,
        ChildOpView::OpenTerminal => 72,
        ChildOpView::RedirectInput => 73,
        ChildOpView::RedirectOutput => 74,
        ChildOpView::RedirectErrors => 75,
        ChildOpView::RawMode => 76,
        ChildOpView::ControllingTerminal => 77,
        ChildOpView::ChangeDirectory(_) => 78,
        ChildOpView::Privilege(PrivilegeOpView::SetGroups(_)) => 79,
        ChildOpView::Privilege(PrivilegeOpView::SetGid(_)) => 80,
        ChildOpView::Privilege(PrivilegeOpView::SetEffectiveGid(_)) => 80,
        ChildOpView::Privilege(PrivilegeOpView::SetUid(_)) => 81,
        ChildOpView::Privilege(PrivilegeOpView::SetEffectiveUid(_)) => 81,
        ChildOpView::Execute { .. } => 82,
    }
}

impl ChildOp {
    /// The status with which the child has to end at once when this step
    /// fails. It never goes on to a later step.
    pub fn status_on_failure(&self) -> (status: u8)
        ensures
            status == failure_status(self@),
            status != 0,
    {
        match self {
            ChildOp::NewSession => 71,
            ChildOp::OpenTerminal => 72,
            ChildOp::RedirectInput => 73,
            ChildOp::RedirectOutput => 74,
            ChildOp::RedirectErrors => 75,
            ChildOp::RawMode => 76,
            ChildOp::ControllingTerminal => 77,
            ChildOp::ChangeDirectory(_) => 78,
            ChildOp::Privilege(PrivilegeOp::SetGroups(_)) => 79,
            ChildOp::Privilege(PrivilegeOp::SetGid(_)) => 80,
            ChildOp::Privilege(PrivilegeOp::SetEffectiveGid(_)) => 80,
            ChildOp::Privilege(PrivilegeOp::SetUid(_)) => 81,
            ChildOp::Privilege(PrivilegeOp::SetEffectiveUid(_)) => 81,
            ChildOp::Execute { .. } => 82,
        }
    }
}

/// The steps that attach the child to its terminal or to its pipes.
pub open spec fn attach_steps(mode: TerminalMode) -> Seq<ChildOpView> {
    match mode {
        TerminalMode::Pty => seq![
            ChildOpView::NewSession,
            ChildOpView::OpenTerminal,
            ChildOpView::RedirectInput,
            ChildOpView::RedirectOutput,
            ChildOpView::RedirectErrors,
            ChildOpView::RawMode,
            ChildOpView::ControllingTerminal,
        ],
        TerminalMode::Pipes => seq![
            ChildOpView::NewSession,
            ChildOpView::RedirectInput,
            ChildOpView::RedirectOutput,
            ChildOpView::RedirectErrors,
        ],
    }
}

/// The steps by which the child becomes the account and then its shell.
pub open spec fn become_steps(identity: IdentityView) -> Seq<ChildOpView> {
    seq![
        ChildOpView::ChangeDirectory(identity.home),
        ChildOpView::Privilege(PrivilegeOpView::SetGroups(identity.supplementary_gids)),
        ChildOpView::Privilege(PrivilegeOpView::SetGid(identity.primary_gid)),
        ChildOpView::Privilege(PrivilegeOpView::SetUid(identity.uid)),
        ChildOpView::Execute { shell: identity.shell, login: takes_login_flag(identity.shell) },
    ]
}

/// All the steps of the child, in the order in which it takes them.
pub open spec fn child_steps(identity: IdentityView, mode: TerminalMode) -> Seq<ChildOpView> {
    attach_steps(mode) + become_steps(identity)
}

/// The steps of a child that is to become `identity`, attached in the way
/// that `mode` says, in the order in which the child has to take them.
///
/// The child first leaves the daemon's session and takes the terminal (or
/// the pipes) as its standard streams; then it changes to the home
/// directory, drops to the account for good (groups, group id, user id), and
/// at last replaces its image by the login shell.
pub fn child_plan(identity: &Identity, mode: TerminalMode) -> (plan: Vec<ChildOp>)
    ensures
        steps_view(plan@) == child_steps(identity@, mode),
{
    let mut plan: Vec<ChildOp> = Vec::new();
    plan.push(ChildOp::NewSession);
    match mode {
        TerminalMode::Pty => {
            plan.push(ChildOp::OpenTerminal);
            plan.push(ChildOp::RedirectInput);
            plan.push(ChildOp::RedirectOutput);
            plan.push(ChildOp::RedirectErrors);
            plan.push(ChildOp::RawMode);
            plan.push(ChildOp::ControllingTerminal);
        },
        TerminalMode::Pipes => {
            plan.push(ChildOp::RedirectInput);
            plan.push(ChildOp::RedirectOutput);
            plan.push(ChildOp::RedirectErrors);
        },
    }
    assert(steps_view(plan@) =~= attach_steps(mode));
    let ghost attached = plan@;
    plan.push(ChildOp::ChangeDirectory(identity.home().clone()));
    let mut changes = drop_to(identity);
    proof {
        let wanted = drop_changes(
            identity@.uid,
            identity@.primary_gid,
            identity@.supplementary_gids,
        );
        let views = plan_view(changes@);
        assert(views.len() == changes@.len() && views.len() == 3);
        assert(changes@[0]@ == views[0] && views[0] == wanted[0]);
        assert(changes@[1]@ == views[1] && views[1] == wanted[1]);
        assert(changes@[2]@ == views[2] && views[2] == wanted[2]);
    }
    let user = changes.pop().unwrap();
    let group = changes.pop().unwrap();
    let groups = changes.pop().unwrap();
    plan.push(ChildOp::Privilege(groups));
    plan.push(ChildOp::Privilege(group));
    plan.push(ChildOp::Privilege(user));
    let login = login_flag(identity.shell().as_str());
    plan.push(ChildOp::Execute { shell: identity.shell().clone(), login });
    assert(steps_view(plan@) =~= child_steps(identity@, mode)) by {
        let wanted = child_steps(identity@, mode);
        assert(plan@.len() == wanted.len());
        assert forall|i: int| 0 <= i < plan@.len() implies steps_view(plan@)[i] == wanted[i] by {
            if i < attached.len() {
                assert(plan@[i] == attached[i]);
                assert(steps_view(attached)[i] == attach_steps(mode)[i]);
            }
        }
    }
    plan
}

/// A failing step tells itself from every other by its status.
///
/// In the steps of any child, no two steps have the same status of failure,
/// and none has the status 0.
pub proof fn lemma_statuses_are_distinct(identity: IdentityView, mode: TerminalMode, i: int, j: int)
    requires
        0 <= i < child_steps(identity, mode).len(),
        0 <= j < child_steps(identity, mode).len(),
        i != j,
    ensures
        failure_status(child_steps(identity, mode)[i]) != failure_status(
            child_steps(identity, mode)[j],
        ),
        failure_status(child_steps(identity, mode)[i]) != 0,
{
}

/// The changes of credentials among `steps`, in order.
pub open spec fn changes_in(steps: Seq<ChildOpView>) -> Seq<PrivilegeOpView>
    decreases steps.len(),
{
    if steps.len() == 0 {
        Seq::empty()
    } else {
        match steps.last() {
            ChildOpView::Privilege(op) => changes_in(steps.drop_last()).push(op),
            _ => changes_in(steps.drop_last()),
        }
    }
}

proof fn lemma_changes_in_concat(front: Seq<ChildOpView>, back: Seq<ChildOpView>)
    ensures
        changes_in(front + back) == changes_in(front) + changes_in(back),
    decreases back.len(),
{
    if back.len() == 0 {
        assert(front + back == front);
        assert(changes_in(front) + changes_in(back) == changes_in(front));
    } else {
        lemma_changes_in_concat(front, back.drop_last());
        assert((front + back).drop_last() == front + back.drop_last());
        assert((front + back).last() == back.last());
        match back.last() {
            ChildOpView::Privilege(op) => {
                assert(changes_in(front) + changes_in(back.drop_last()).push(op) == (changes_in(
                    front,
                ) + changes_in(back.drop_last())).push(op));
            },
            _ => {},
        }
    }
}

proof fn lemma_changes_in_push(steps: Seq<ChildOpView>, step: ChildOpView)
    ensures
        changes_in(steps.push(step)) == match step {
            ChildOpView::Privilege(op) => changes_in(steps).push(op),
            _ => changes_in(steps),
        },
{
    assert(steps.push(step).drop_last() == steps);
}

/// The child changes its credentials by dropping to the account, and in no
/// other way: the changes among its steps are the three that drop to the
/// identity, in their order.
pub proof fn lemma_child_drops_to_identity(identity: IdentityView, mode: TerminalMode)
    ensures
        changes_in(child_steps(identity, mode)) == drop_changes(
            identity.uid,
            identity.primary_gid,
            identity.supplementary_gids,
        ),
        child_steps(identity, mode).last() matches ChildOpView::Execute { .. },
{
    let none = Seq::<ChildOpView>::empty();
    let attach = attach_steps(mode);
    assert(changes_in(attach) == Seq::<PrivilegeOpView>::empty()) by {
        let s1 = none.push(ChildOpView::NewSession);
        lemma_changes_in_push(none, ChildOpView::NewSession);
        match mode {
            TerminalMode::Pty => {
                let s2 = s1.push(ChildOpView::OpenTerminal);
                let s3 = s2.push(ChildOpView::RedirectInput);
                let s4 = s3.push(ChildOpView::RedirectOutput);
                let s5 = s4.push(ChildOpView::RedirectErrors);
                let s6 = s5.push(ChildOpView::RawMode);
                let s7 = s6.push(ChildOpView::ControllingTerminal);
                lemma_changes_in_push(s1, ChildOpView::OpenTerminal);
                lemma_changes_in_push(s2, ChildOpView::RedirectInput);
                lemma_changes_in_push(s3, ChildOpView::RedirectOutput);
                lemma_changes_in_push(s4, ChildOpView::RedirectErrors);
                lemma_changes_in_push(s5, ChildOpView::RawMode);
                lemma_changes_in_push(s6, ChildOpView::ControllingTerminal);
                assert(attach =~= s7);
            },
            TerminalMode::Pipes => {
                let s2 = s1.push(ChildOpView::RedirectInput);
                let s3 = s2.push(ChildOpView::RedirectOutput);
                let s4 = s3.push(ChildOpView::RedirectErrors);
                lemma_changes_in_push(s1, ChildOpView::RedirectInput);
                lemma_changes_in_push(s2, ChildOpView::RedirectOutput);
                lemma_changes_in_push(s3, ChildOpView::RedirectErrors);
                assert(attach =~= s4);
            },
        }
    }
    let wanted = drop_changes(identity.uid, identity.primary_gid, identity.supplementary_gids);
    assert(changes_in(become_steps(identity)) == wanted) by {
        let b1 = none.push(ChildOpView::ChangeDirectory(identity.home));
        let b2 = b1.push(ChildOpView::Privilege(wanted[0]));
        let b3 = b2.push(ChildOpView::Privilege(wanted[1]));
        let b4 = b3.push(ChildOpView::Privilege(wanted[2]));
        let last = ChildOpView::Execute {
            shell: identity.shell,
            login: takes_login_flag(identity.shell),
        };
        let b5 = b4.push(last);
        lemma_changes_in_push(none, ChildOpView::ChangeDirectory(identity.home));
        lemma_changes_in_push(b1, ChildOpView::Privilege(wanted[0]));
        lemma_changes_in_push(b2, ChildOpView::Privilege(wanted[1]));
        lemma_changes_in_push(b3, ChildOpView::Privilege(wanted[2]));
        lemma_changes_in_push(b4, last);
        assert(become_steps(identity) =~= b5);
        assert(changes_in(b5) =~= wanted);
    }
    lemma_changes_in_concat(attach, become_steps(identity));
    assert(Seq::<PrivilegeOpView>::empty() + wanted == wanted);
}

/// The child of an account has the groups of that account and no others.
///
/// Whatever the credentials of the daemon are, as long as its effective
/// user is the superuser: after the changes that the child makes among its
/// steps, each of which is permitted when it is made, the child's
/// supplementary groups are those of the identity, and none at all where
/// the identity has none. Nothing is left of the daemon's groups, and the
/// child's user and group ids, real, effective and saved, are the
/// identity's.
pub proof fn lemma_child_keeps_no_groups(
    daemon: Credentials,
    identity: IdentityView,
    mode: TerminalMode,
)
    requires
        daemon.is_privileged(),
    ensures
        ({
            let changes = changes_in(child_steps(identity, mode));
            let child = daemon.after_all(changes);
            &&& daemon.permits_all(changes)
            &&& child.groups == identity.supplementary_gids
            &&& identity.supplementary_gids.len() == 0 ==> child.groups.len() == 0
            &&& child.real_uid == identity.uid && child.effective_uid == identity.uid
                && child.saved_uid == identity.uid
            &&& child.real_gid == identity.primary_gid && child.effective_gid
                == identity.primary_gid && child.saved_gid == identity.primary_gid
        }),
{
    lemma_child_drops_to_identity(identity, mode);
    lemma_drop_is_complete(
        daemon,
        identity.uid,
        identity.primary_gid,
        identity.supplementary_gids,
    );
}

} // verus!
