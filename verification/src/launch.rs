//! The parent's side of starting a child.
//!
//! A [`Launch`] is told how each system call went and says which comes next.
//! It keeps what has been opened and started so far, and on every path of
//! failure it asks for all of it to be let go before it reports the failure.

use vstd::prelude::*;
use crate::errors::LaunchError;
use crate::identity::Identity;
use crate::launcher::{is_usable_path, usable_path, SessionHandle, SessionHandleView, Terminal};

verus! {

/// How far a launch has come.
#[derive(Clone, Copy, Debug, PartialEq, Eq, Structural)]
pub enum LaunchState {
    /// The shell is being checked: is it there, may it be executed?
    CheckingShell,
    /// A pseudo-terminal is being allocated.
    OpeningPty,
    /// Pipes are being made in place of a pseudo-terminal.
    OpeningPipes,
    /// The parent's descriptors are being made non-blocking.
    SettingNonBlocking,
    /// The process is being forked.
    Forking,
    /// The child exists; the parent waits, for a bounded time, until the
    /// child has taken its side of the terminal.
    AwaitingReady,
    /// The launch has failed; what was opened and started is being let go.
    Releasing,
    /// The child runs.
    Succeeded,
    /// The launch has failed and nothing is held any more.
    Failed,
}

/// What the program reports to a launch.
#[derive(Clone, Copy, Debug, PartialEq, Eq, Structural)]
pub enum LaunchEvent {
    /// Whether the shell may be executed.
    ShellChecked(bool),
    /// A pseudo-terminal has been allocated; this is its master side.
    PtyOpened(i32),
    /// The system offers no pseudo-terminals at all. The launch goes on
    /// with pipes; reported of the pipes, it fails the launch.
    PtyUnavailable,
    /// The system has no terminal or descriptor left.
    Exhausted,
    /// The terminal or the pipes could not be made, for another reason.
    OpenFailed(i32),
    /// The pipes have been made; these are the parent's ends.
    PipesOpened(i32, i32, i32),
    /// The parent's descriptors are non-blocking now.
    NonBlockingSet,
    /// They could not be made non-blocking.
    NonBlockingFailed(i32),
    /// The fork has succeeded; this is the child.
    Forked(i32),
    /// The fork has failed.
    ForkFailed(i32),
    /// The child has taken its side of the terminal.
    ChildReady,
    /// The child has not done so in time.
    ChildTimedOut,
    /// The child has ended during its set-up and has been waited for; this
    /// is its exit status.
    ChildFailed(u8),
    /// What was to be let go has been let go.
    Released,
}

/// How long the parent waits for a child to become ready, in milliseconds.
/// A child that takes longer is given up.
pub const READY_TIMEOUT_MILLIS: u32 = 5000;

/// The error numbers of the system that tell why no terminal could be had.
pub const ENOENT: i32 = 2;

pub const ENXIO: i32 = 6;

pub const EAGAIN: i32 = 11;

pub const ENOMEM: i32 = 12;

pub const ENODEV: i32 = 19;

pub const ENFILE: i32 = 23;

pub const EMFILE: i32 = 24;

pub const ENOSPC: i32 = 28;

impl LaunchEvent {
    /// What a failed attempt to open a terminal, or pipes, means. Where the
    /// device is missing, the system offers no pseudo-terminals; where
    /// descriptors, terminals or memory have run out, the system is
    /// exhausted; anything else is a failure of its own.
    pub open spec fn of_open_failure(errno: i32) -> LaunchEvent {
        if errno == ENOENT || errno == ENXIO || errno == ENODEV {
            LaunchEvent::PtyUnavailable
        } else if errno == EAGAIN || errno == ENOMEM || errno == ENFILE || errno == EMFILE || errno
            == ENOSPC {
            LaunchEvent::Exhausted
        } else {
            LaunchEvent::OpenFailed(errno)
        }
    }

    /// What the wait for a child says. The child reports on a pipe that its
    /// new image closes: `ready` is what the wait for the pipe returned
    /// (positive if there is something to read), `count` what the read of
    /// one byte returned then, and `status` the byte. A byte is the status
    /// of the step that failed; the end of the pipe without a byte is the
    /// new image; anything else leaves the child unready when its time is
    /// up.
    pub open spec fn of_readiness(ready: i32, count: isize, status: u8) -> LaunchEvent {
        if ready <= 0 {
            LaunchEvent::ChildTimedOut
        } else if count == 1 {
            LaunchEvent::ChildFailed(status)
        } else if count == 0 {
            LaunchEvent::ChildReady
        } else {
            LaunchEvent::ChildTimedOut
        }
    }

    /// Reads what the wait for a child says.
    pub fn readiness(ready: i32, count: isize, status: u8) -> (event: LaunchEvent)
        ensures
            event == LaunchEvent::of_readiness(ready, count, status),
    {
        if ready <= 0 {
            LaunchEvent::ChildTimedOut
        } else if count == 1 {
            LaunchEvent::ChildFailed(status)
        } else if count == 0 {
            LaunchEvent::ChildReady
        } else {
            LaunchEvent::ChildTimedOut
        }
    }

    /// Classifies the error number of a failed attempt to open a terminal
    /// or pipes.
    pub fn open_failure(errno: i32) -> (event: LaunchEvent)
        ensures
            event == LaunchEvent::of_open_failure(errno),
    {
        if errno == ENOENT || errno == ENXIO || errno == ENODEV {
            LaunchEvent::PtyUnavailable
        } else if errno == EAGAIN || errno == ENOMEM || errno == ENFILE || errno == EMFILE || errno
            == ENOSPC {
            LaunchEvent::Exhausted
        } else {
            LaunchEvent::OpenFailed(errno)
        }
    }
}

/// What a launch asks the program to do.
#[derive(Clone, Copy, Debug, PartialEq, Eq, Structural)]
pub enum LaunchAction {
    /// Check that the shell may be executed.
    CheckShell,
    /// Allocate a pseudo-terminal.
    OpenPty,
    /// Make three pipes.
    OpenPipes,
    /// Make the parent's descriptors non-blocking.
    SetNonBlocking(Terminal),
    /// Fork; the child takes the steps of its plan.
    Fork(Terminal),
    /// Wait until the child is ready, but no longer than
    /// [`READY_TIMEOUT_MILLIS`].
    AwaitReady(i32),
    /// Close the descriptors of the terminal, if there is one; end the child
    /// and wait for it, if there is one.
    Release(Option<Terminal>, Option<i32>),
    /// The child runs: take the handle.
    Succeed,
    /// Report the failure.
    Fail(LaunchError),
    /// Nothing new: the event was not the answer to what is under way.
    Wait,
}

/// A launch as mathematical values.
pub struct LaunchView {
    pub state: LaunchState,
    /// The descriptors that the parent holds.
    pub terminal: Option<Terminal>,
    /// The child that has not been waited for.
    pub child: Option<i32>,
    /// Why the launch failed.
    pub error: Option<LaunchError>,
}

impl LaunchView {
    /// A launch of the shell at `shell`, before anything has been done. A
    /// path that cannot be handed to the system fails the launch at once.
    pub open spec fn initial(shell: Seq<char>) -> LaunchView {
        if is_usable_path(shell) {
            LaunchView { state: LaunchState::CheckingShell, terminal: None, child: None, error: None }
        } else {
            LaunchView {
                state: LaunchState::Failed,
                terminal: None,
                child: None,
                error: Some(LaunchError::ShellNotExecutable),
            }
        }
    }

    /// The launch after it has failed with `error`: if it holds anything, it
    /// lets go of it first.
    pub open spec fn failing(self, error: LaunchError) -> LaunchView {
        LaunchView {
            state: if self.terminal is Some || self.child is Some {
                LaunchState::Releasing
            } else {
                LaunchState::Failed
            },
            error: Some(error),
            ..self
        }
    }

    /// Whether `event` is an answer to what the launch is waiting for.
    pub open spec fn accepts(self, event: LaunchEvent) -> bool {
        match self.state {
            LaunchState::CheckingShell => event is ShellChecked,
            LaunchState::OpeningPty => event is PtyOpened || event == LaunchEvent::PtyUnavailable
                || event == LaunchEvent::Exhausted || event is OpenFailed,
            LaunchState::OpeningPipes => event is PipesOpened || event == LaunchEvent::Exhausted
                || event is OpenFailed || event == LaunchEvent::PtyUnavailable,
            LaunchState::SettingNonBlocking => event == LaunchEvent::NonBlockingSet
                || event is NonBlockingFailed,
            LaunchState::Forking => event is Forked || event is ForkFailed,
            LaunchState::AwaitingReady => event == LaunchEvent::ChildReady || event
                == LaunchEvent::ChildTimedOut || event is ChildFailed,
            LaunchState::Releasing => event == LaunchEvent::Released,
            LaunchState::Succeeded => false,
            LaunchState::Failed => false,
        }
    }

    /// The launch after `event`. An event that is not accepted changes
    /// nothing.
    pub open spec fn after(self, event: LaunchEvent) -> LaunchView {
        if !self.accepts(event) {
            self
        } else {
            match event {
                LaunchEvent::ShellChecked(executable) => if executable {
                    LaunchView { state: LaunchState::OpeningPty, ..self }
                } else {
                    self.failing(LaunchError::ShellNotExecutable)
                },
                LaunchEvent::PtyOpened(master) => LaunchView {
                    state: LaunchState::SettingNonBlocking,
                    terminal: Some(Terminal::Pty { master }),
                    ..self
                },
                LaunchEvent::PtyUnavailable => if self.state == LaunchState::OpeningPty {
                    LaunchView { state: LaunchState::OpeningPipes, ..self }
                } else {
                    self.failing(LaunchError::TerminalFailed(ENODEV))
                },
                LaunchEvent::Exhausted => self.failing(LaunchError::ResourceExhausted),
                LaunchEvent::OpenFailed(errno) => self.failing(LaunchError::TerminalFailed(errno)),
                LaunchEvent::PipesOpened(input, output, errors) => LaunchView {
                    state: LaunchState::SettingNonBlocking,
                    terminal: Some(Terminal::Pipes { input, output, errors }),
                    ..self
                },
                LaunchEvent::NonBlockingSet => LaunchView { state: LaunchState::Forking, ..self },
                LaunchEvent::NonBlockingFailed(errno) => self.failing(
                    LaunchError::TerminalFailed(errno),
                ),
                LaunchEvent::Forked(child) => LaunchView {
                    state: LaunchState::AwaitingReady,
                    child: Some(child),
                    ..self
                },
                LaunchEvent::ForkFailed(errno) => self.failing(LaunchError::ForkFailed(errno)),
                LaunchEvent::ChildReady => LaunchView { state: LaunchState::Succeeded, ..self },
                LaunchEvent::ChildTimedOut => self.failing(LaunchError::ReadyTimeout),
                LaunchEvent::ChildFailed(status) => LaunchView { child: None, ..self }.failing(
                    LaunchError::ChildSetupFailed(status),
                ),
                LaunchEvent::Released => LaunchView {
                    state: LaunchState::Failed,
                    terminal: None,
                    child: None,
                    ..self
                },
            }
        }
    }

    /// What the launch in this state waits for the program to do.
    pub open spec fn command(self) -> LaunchAction {
        match self.state {
            LaunchState::CheckingShell => LaunchAction::CheckShell,
            LaunchState::OpeningPty => LaunchAction::OpenPty,
            LaunchState::OpeningPipes => LaunchAction::OpenPipes,
            LaunchState::SettingNonBlocking => match self.terminal {
                Some(terminal) => LaunchAction::SetNonBlocking(terminal),
                None => LaunchAction::Wait,
            },
            LaunchState::Forking => match self.terminal {
                Some(terminal) => LaunchAction::Fork(terminal),
                None => LaunchAction::Wait,
            },
            LaunchState::AwaitingReady => match self.child {
                Some(child) => LaunchAction::AwaitReady(child),
                None => LaunchAction::Wait,
            },
            LaunchState::Releasing => LaunchAction::Release(self.terminal, self.child),
            LaunchState::Succeeded => LaunchAction::Succeed,
            LaunchState::Failed => match self.error {
                Some(error) => LaunchAction::Fail(error),
                None => LaunchAction::Wait,
            },
        }
    }

    /// What the launch answers to `event`.
    pub open spec fn answer(self, event: LaunchEvent) -> LaunchAction {
        if self.accepts(event) {
            self.after(event).command()
        } else {
            LaunchAction::Wait
        }
    }

    /// The launch after a run of events, oldest first.
    pub open spec fn after_all(self, events: Seq<LaunchEvent>) -> LaunchView
        decreases events.len(),
    {
        if events.len() == 0 {
            self
        } else {
            self.after_all(events.drop_last()).after(events.last())
        }
    }

    /// What a launch holds in each of its states, and no more.
    ///
    /// Before the terminal is opened the launch holds nothing. From then on
    /// it holds the terminal, and from the fork on the child, until it has
    /// succeeded or let go of both. A launch that has failed holds nothing
    /// and knows why it failed; one that has succeeded holds the terminal
    /// and the child and has met no error; one that lets go holds something.
    pub open spec fn consistent(self) -> bool {
        match self.state {
            LaunchState::CheckingShell | LaunchState::OpeningPty | LaunchState::OpeningPipes => {
                self.terminal is None && self.child is None && self.error is None
            },
            LaunchState::SettingNonBlocking | LaunchState::Forking => {
                self.terminal is Some && self.child is None && self.error is None
            },
            LaunchState::AwaitingReady | LaunchState::Succeeded => {
                self.terminal is Some && self.child is Some && self.error is None
            },
            LaunchState::Releasing => {
                (self.terminal is Some || self.child is Some) && self.error is Some
            },
            LaunchState::Failed => {
                self.terminal is None && self.child is None && self.error is Some
            },
        }
    }
}

/// The launch of one child.
#[derive(Debug)]
pub struct Launch {
    state: LaunchState,
    terminal: Option<Terminal>,
    child: Option<i32>,
    error: Option<LaunchError>,
}

impl View for Launch {
    type V = LaunchView;

    closed spec fn view(&self) -> LaunchView {
        LaunchView {
            state: self.state,
            terminal: self.terminal,
            child: self.child,
            error: self.error,
        }
    }
}

impl Launch {
    /// A launch of the login shell of `identity`.
    pub fn new(identity: &Identity) -> (launch: Launch)
        ensures
            launch@ == LaunchView::initial(identity@.shell),
    {
        if usable_path(identity.shell().as_str()) {
            Launch { state: LaunchState::CheckingShell, terminal: None, child: None, error: None }
        } else {
            Launch {
                state: LaunchState::Failed,
                terminal: None,
                child: None,
                error: Some(LaunchError::ShellNotExecutable),
            }
        }
    }

    /// How far the launch has come.
    pub fn state(&self) -> (state: LaunchState)
        ensures
            state == self@.state,
    {
        self.state
    }

    /// What the launch waits for the program to do.
    pub fn command(&self) -> (action: LaunchAction)
        ensures
            action == self@.command(),
    {
        match self.state {
            LaunchState::CheckingShell => LaunchAction::CheckShell,
            LaunchState::OpeningPty => LaunchAction::OpenPty,
            LaunchState::OpeningPipes => LaunchAction::OpenPipes,
            LaunchState::SettingNonBlocking => match self.terminal {
                Some(terminal) => LaunchAction::SetNonBlocking(terminal),
                None => LaunchAction::Wait,
            },
            LaunchState::Forking => match self.terminal {
                Some(terminal) => LaunchAction::Fork(terminal),
                None => LaunchAction::Wait,
            },
            LaunchState::AwaitingReady => match self.child {
                Some(child) => LaunchAction::AwaitReady(child),
                None => LaunchAction::Wait,
            },
            LaunchState::Releasing => LaunchAction::Release(self.terminal, self.child),
            LaunchState::Succeeded => LaunchAction::Succeed,
            LaunchState::Failed => match self.error {
                Some(error) => LaunchAction::Fail(error),
                None => LaunchAction::Wait,
            },
        }
    }

    fn fail(&mut self, error: LaunchError)
        ensures
            final(self)@ == old(self)@.failing(error),
    {
        if self.terminal.is_some() || self.child.is_some() {
            self.state = LaunchState::Releasing;
        } else {
            self.state = LaunchState::Failed;
        }
        self.error = Some(error);
    }

    /// Takes the report of how a system call went and says what to do next.
    ///
    /// An event that answers what the launch waits for moves it on, and the
    /// answer is the action of the new state. Any other event changes
    /// nothing and is answered with [`LaunchAction::Wait`].
    pub fn step(&mut self, event: LaunchEvent) -> (action: LaunchAction)
        ensures
            final(self)@ == old(self)@.after(event),
            action == old(self)@.answer(event),
    {
        match (self.state, event) {
            (LaunchState::CheckingShell, LaunchEvent::ShellChecked(executable)) => {
                if executable {
                    self.state = LaunchState::OpeningPty;
                } else {
                    self.fail(LaunchError::ShellNotExecutable);
                }
            },
            (LaunchState::OpeningPty, LaunchEvent::PtyOpened(master)) => {
                self.state = LaunchState::SettingNonBlocking;
                self.terminal = Some(Terminal::Pty { master });
            },
            (LaunchState::OpeningPty, LaunchEvent::PtyUnavailable) => {
                self.state = LaunchState::OpeningPipes;
            },
            (LaunchState::OpeningPipes, LaunchEvent::PtyUnavailable) => {
                self.fail(LaunchError::TerminalFailed(ENODEV));
            },
            (LaunchState::OpeningPty, LaunchEvent::Exhausted)
            | (LaunchState::OpeningPipes, LaunchEvent::Exhausted) => {
                self.fail(LaunchError::ResourceExhausted);
            },
            (LaunchState::OpeningPty, LaunchEvent::OpenFailed(errno))
            | (LaunchState::OpeningPipes, LaunchEvent::OpenFailed(errno)) => {
                self.fail(LaunchError::TerminalFailed(errno));
            },
            (LaunchState::OpeningPipes, LaunchEvent::PipesOpened(input, output, errors)) => {
                self.state = LaunchState::SettingNonBlocking;
                self.terminal = Some(Terminal::Pipes { input, output, errors });
            },
            (LaunchState::SettingNonBlocking, LaunchEvent::NonBlockingSet) => {
                self.state = LaunchState::Forking;
            },
            (LaunchState::SettingNonBlocking, LaunchEvent::NonBlockingFailed(errno)) => {
                self.fail(LaunchError::TerminalFailed(errno));
            },
            (LaunchState::Forking, LaunchEvent::Forked(child)) => {
                self.state = LaunchState::AwaitingReady;
                self.child = Some(child);
            },
            (LaunchState::Forking, LaunchEvent::ForkFailed(errno)) => {
                self.fail(LaunchError::ForkFailed(errno));
            },
            (LaunchState::AwaitingReady, LaunchEvent::ChildReady) => {
                self.state = LaunchState::Succeeded;
            },
            (LaunchState::AwaitingReady, LaunchEvent::ChildTimedOut) => {
                self.fail(LaunchError::ReadyTimeout);
            },
            (LaunchState::AwaitingReady, LaunchEvent::ChildFailed(status)) => {
                self.child = None;
                self.fail(LaunchError::ChildSetupFailed(status));
            },
            (LaunchState::Releasing, LaunchEvent::Released) => {
                self.state = LaunchState::Failed;
                self.terminal = None;
                self.child = None;
            },
            _ => {
                return LaunchAction::Wait;
            },
        }
        self.command()
    }

    /// Ends the launch. A launch that has succeeded gives the handle of its
    /// child, and one that has failed the reason. A launch that is still
    /// under way is handed back as it is: it may hold a terminal or a child
    /// that nobody else knows of.
    pub fn finish(self) -> (result: Result<Result<SessionHandle, LaunchError>, Launch>)
        ensures
            match result {
                Ok(Ok(handle)) => self@.state == LaunchState::Succeeded && self@.terminal == Some(
                    handle@.terminal,
                ) && self@.child == Some(handle@.pid),
                Ok(Err(error)) => self@.state == LaunchState::Failed && self@.error == Some(error),
                Err(launch) => launch@ == self@ && !(self@.state == LaunchState::Succeeded
                    && self@.terminal is Some && self@.child is Some) && !(self@.state
                    == LaunchState::Failed && self@.error is Some),
            },
    {
        match (self.state, self.terminal, self.child, self.error) {
            (LaunchState::Succeeded, Some(terminal), Some(pid), _) => Ok(
                Ok(SessionHandle::new(pid, terminal)),
            ),
            (LaunchState::Failed, _, _, Some(error)) => Ok(Err(error)),
            _ => Err(self),
        }
    }
}

/// One event leaves a launch consistent.
pub proof fn lemma_event_keeps_consistent(launch: LaunchView, event: LaunchEvent)
    requires
        launch.consistent(),
    ensures
        launch.after(event).consistent(),
{
}

/// A launch never loses track of what it holds.
///
/// After any run of events on a new launch, the launch is consistent. So a
/// launch that has failed holds no descriptor and no child, whichever step
/// failed; a launch that has succeeded holds both; and the program is never
/// sent away with [`LaunchAction::Wait`] for an event that was accepted.
pub proof fn lemma_launch_holds_or_releases(shell: Seq<char>, events: Seq<LaunchEvent>)
    ensures
        ({
            let end = LaunchView::initial(shell).after_all(events);
            &&& end.consistent()
            &&& end.command() != LaunchAction::Wait
            &&& end.state == LaunchState::Failed ==> end.terminal is None && end.child is None
                && end.error is Some
            &&& end.state == LaunchState::Succeeded ==> end.terminal is Some && end.child is Some
        }),
    decreases events.len(),
{
    if events.len() > 0 {
        lemma_launch_holds_or_releases(shell, events.drop_last());
        lemma_event_keeps_consistent(
            LaunchView::initial(shell).after_all(events.drop_last()),
            events.last(),
        );
    }
}

/// A shell that may not be executed costs nothing: the launch fails before
/// anything is opened or started, and nothing has to be let go.
pub proof fn lemma_bad_shell_opens_nothing(shell: Seq<char>)
    ensures
        !is_usable_path(shell) ==> LaunchView::initial(shell).state == LaunchState::Failed,
        LaunchView::initial(shell).answer(LaunchEvent::ShellChecked(false)) == if is_usable_path(
            shell,
        ) {
            LaunchAction::Fail(LaunchError::ShellNotExecutable)
        } else {
            LaunchAction::Wait
        },
{
}

} // verus!
