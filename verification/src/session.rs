//! The states that one connection walks through.
//!
//! A [`Session`] is told what happened (an [`Event`]) and answers with what
//! to do next (an [`Action`]). It does nothing itself: the program around the
//! library carries out each action and reports how it went. The session makes
//! sure that no step is left out on any path, the paths of failure included.

use vstd::prelude::*;
use crate::bridge::{BridgeOutcome, Frame, FrameView};
use crate::errors::{LaunchError, PrivilegeError, ProtocolViolation, SessionError};
use crate::text::{begins_with, same_chars, to_chars};

verus! {

/// What a peer can ask for.
#[derive(Clone, Copy, Debug, PartialEq, Eq, Structural)]
pub enum Capability {
    /// An interactive shell that runs as the authenticated account.
    Shell,
    /// The state of the machine as a whole.
    Status,
    /// The charge of the battery.
    StatusPower,
    /// The free share of the disks.
    StatusStorage,
    /// The current settings.
    SettingsPull,
    /// New settings to store.
    SettingsPush,
    /// Something below `plugin/`.
    Plugin,
    /// Something below `update/`.
    Update,
    /// Something below `manage/`.
    Manage,
    /// Anything else.
    Unknown,
}

/// The name of a capability without the slash that may stand in front of it.
pub open spec fn verb(name: Seq<char>) -> Seq<char> {
    if name.len() > 0 && name[0] == '/' {
        name.skip(1)
    } else {
        name
    }
}

/// The capability that a request names.
pub open spec fn capability_named(name: Seq<char>) -> Capability {
    let verb = self::verb(name);
    if verb == "shell"@ {
        Capability::Shell
    } else if verb == "status"@ {
        Capability::Status
    } else if verb == "status/power"@ {
        Capability::StatusPower
    } else if verb == "status/storage"@ {
        Capability::StatusStorage
    } else if verb == "settings/pull"@ {
        Capability::SettingsPull
    } else if verb == "settings/push"@ {
        Capability::SettingsPush
    } else if "plugin/"@.is_prefix_of(verb) {
        Capability::Plugin
    } else if "update/"@.is_prefix_of(verb) {
        Capability::Update
    } else if "manage/"@.is_prefix_of(verb) {
        Capability::Manage
    } else {
        Capability::Unknown
    }
}

impl Capability {
    /// Reads the name of a capability, as it stands in a request.
    pub fn parse(name: &str) -> (capability: Capability)
        ensures
            capability == capability_named(name@),
    {
        let mut chars = to_chars(name);
        let wanted = if chars.len() > 0 && chars[0] == '/' {
            chars.split_off(1)
        } else {
            chars
        };
        assert(wanted@ == verb(name@));
        if same_chars(&wanted, &to_chars("shell")) {
            Capability::Shell
        } else if same_chars(&wanted, &to_chars("status")) {
            Capability::Status
        } else if same_chars(&wanted, &to_chars("status/power")) {
            Capability::StatusPower
        } else if same_chars(&wanted, &to_chars("status/storage")) {
            Capability::StatusStorage
        } else if same_chars(&wanted, &to_chars("settings/pull")) {
            Capability::SettingsPull
        } else if same_chars(&wanted, &to_chars("settings/push")) {
            Capability::SettingsPush
        } else if begins_with(&wanted, &to_chars("plugin/")) {
            Capability::Plugin
        } else if begins_with(&wanted, &to_chars("update/")) {
            Capability::Update
        } else if begins_with(&wanted, &to_chars("manage/")) {
            Capability::Manage
        } else {
            Capability::Unknown
        }
    }

    /// Whether the daemon answers this capability directly, without a child
    /// process.
    pub open spec fn is_served(self) -> bool {
        self == Capability::Status || self == Capability::StatusPower || self
            == Capability::StatusStorage || self == Capability::SettingsPull || self
            == Capability::SettingsPush
    }

    /// Whether only an administrator may ask for this capability.
    pub open spec fn is_restricted(self) -> bool {
        self == Capability::SettingsPush
    }
}

/// How far a shell session has come.
#[derive(Clone, Copy, Debug, PartialEq, Eq, Structural)]
pub enum Stage {
    /// Waiting to be admitted.
    AcquiringGate,
    /// Admitted; the target account is being taken on.
    Assuming,
    /// The child process is being started.
    Launching,
    /// The child runs; bytes flow.
    Bridging,
    /// The child is being ended and waited for.
    Reaping,
    /// The original privilege is being given back.
    Restoring,
    /// The admission is being given back.
    Releasing,
}

/// The state of a connection.
#[derive(Clone, Copy, Debug, PartialEq, Eq, Structural)]
pub enum SessionState {
    /// Nothing has been asked for yet.
    AwaitingCapability,
    /// Active, answering a capability that needs no child process.
    Serving(Capability),
    /// Active, running a shell.
    Shell(Stage),
    /// The last frame is being sent.
    Closing,
    /// Over. Nothing is held any more.
    Closed,
    /// Privilege could not be given back: the daemon has to stop.
    Aborted,
}

/// What the program reports to a session.
#[derive(Clone, Copy, Debug, PartialEq, Eq, Structural)]
pub enum Event {
    /// The peer named a capability.
    Request(Capability),
    /// The peer sent a frame that is no request.
    UnexpectedFrame,
    /// The peer is gone.
    TransportClosed,
    /// The capability has been answered.
    Served,
    /// This session has been admitted.
    GateAcquired,
    /// The target account has been taken on.
    Assumed,
    /// Taking on the target account failed.
    AssumeFailed,
    /// The child process runs.
    Launched,
    /// No child process could be started.
    LaunchFailed(LaunchError),
    /// The bridge has ended.
    BridgeEnded(BridgeOutcome),
    /// The child has been waited for.
    Reaped,
    /// The original privilege is back.
    Restored,
    /// The original privilege could not be given back.
    RestoreFailed,
    /// The admission has been given back.
    GateReleased,
    /// The last frame has been sent.
    CloseSent,
}

impl Event {
    /// What the first frame of a peer means: a text frame names a
    /// capability, a binary frame is out of place, and a closing frame, like
    /// no frame at all, means that the peer is gone.
    pub open spec fn of_first_frame(frame: Option<FrameView>) -> Event {
        match frame {
            Some(FrameView::Text(name)) => Event::Request(capability_named(name)),
            Some(FrameView::Binary(_)) => Event::UnexpectedFrame,
            Some(FrameView::Close) => Event::TransportClosed,
            None => Event::TransportClosed,
        }
    }

    /// What the end of a launch means for the session: the child runs, or
    /// the launch has failed for the reason given.
    pub fn of_launch(failure: Option<LaunchError>) -> (event: Event)
        ensures
            event == match failure {
                None => Event::Launched,
                Some(error) => Event::LaunchFailed(error),
            },
    {
        match failure {
            None => Event::Launched,
            Some(error) => Event::LaunchFailed(error),
        }
    }

    /// Reads the first frame of a peer; `None` stands for a transport that
    /// ended without a frame.
    pub fn first_frame(frame: Option<&Frame>) -> (event: Event)
        ensures
            event == Event::of_first_frame(
                match frame {
                    Some(frame) => Some(frame@),
                    None => None,
                },
            ),
    {
        match frame {
            Some(Frame::Text(name)) => Event::Request(Capability::parse(name.as_str())),
            Some(Frame::Binary(_)) => Event::UnexpectedFrame,
            Some(Frame::Close) => Event::TransportClosed,
            None => Event::TransportClosed,
        }
    }
}

/// What a session asks the program to do.
#[derive(Clone, Copy, Debug, PartialEq, Eq, Structural)]
pub enum Action {
    /// Read the request from the transport.
    Receive,
    /// Answer the capability.
    Serve(Capability),
    /// Wait until the process-wide gate admits this session.
    AcquireGate,
    /// Record the current privilege and take on the target account.
    Assume,
    /// Start the child process.
    Launch,
    /// Move bytes until one side ends.
    Bridge,
    /// Signal the child's process group to end, and wait for the child.
    Reap,
    /// Give the recorded privilege back.
    Restore,
    /// Give the admission back.
    ReleaseGate,
    /// Send the error as one text frame, if there is one, and then the last
    /// frame, which closes the transport.
    Close(Option<SessionError>),
    /// Nothing is left to do.
    Stop,
    /// Stop the daemon.
    Abort,
    /// Nothing new: the event was not the answer to what is under way.
    Wait,
}

impl Action {
    /// The actions that change or use the privilege of the process.
    pub open spec fn is_privileged(self) -> bool {
        self == Action::Assume || self == Action::Launch || self == Action::Bridge || self
            == Action::Reap || self == Action::Restore
    }
}

/// A session as mathematical values.
pub struct SessionView {
    pub state: SessionState,
    /// The error that the session ends with: the first that it met, unless
    /// privilege could not be given back, which outweighs every other.
    pub error: Option<SessionError>,
    /// Whether the account to run as is known.
    pub identity_resolved: bool,
    /// Whether the account may change the daemon's settings.
    pub may_administer: bool,
}

impl SessionView {
    /// A session on a connection that has just been authenticated.
    pub open spec fn initial(identity_resolved: bool, may_administer: bool) -> SessionView {
        SessionView {
            state: SessionState::AwaitingCapability,
            error: None,
            identity_resolved,
            may_administer,
        }
    }

    /// The session in `state`, with `error` recorded unless an earlier one
    /// is.
    pub open spec fn failing(self, state: SessionState, error: SessionError) -> SessionView {
        SessionView {
            state,
            error: if self.error is None {
                Some(error)
            } else {
                self.error
            },
            ..self
        }
    }

    /// The session in `state`, otherwise as it is.
    pub open spec fn moving(self, state: SessionState) -> SessionView {
        SessionView { state, ..self }
    }

    /// The session after a request for `capability`.
    pub open spec fn after_request(self, capability: Capability) -> SessionView {
        if capability == Capability::Shell {
            if self.identity_resolved {
                self.moving(SessionState::Shell(Stage::AcquiringGate))
            } else {
                self.failing(
                    SessionState::Closing,
                    SessionError::Launch(LaunchError::IdentityUnresolved),
                )
            }
        } else if capability.is_served() {
            if capability.is_restricted() && !self.may_administer {
                self.failing(
                    SessionState::Closing,
                    SessionError::Protocol(ProtocolViolation::NotPermitted),
                )
            } else {
                self.moving(SessionState::Serving(capability))
            }
        } else {
            self.failing(
                SessionState::Closing,
                SessionError::Protocol(ProtocolViolation::UnknownCapability),
            )
        }
    }

    /// The session after the bridge has ended with `outcome`. A child that
    /// was found exited has been waited for already; any other child still
    /// has to be.
    pub open spec fn after_bridge(self, outcome: BridgeOutcome) -> SessionView {
        match outcome {
            BridgeOutcome::ChildExited => self.moving(SessionState::Shell(Stage::Restoring)),
            BridgeOutcome::TransportClosed => self.moving(SessionState::Shell(Stage::Reaping)),
            BridgeOutcome::ProtocolViolation => self.failing(
                SessionState::Shell(Stage::Reaping),
                SessionError::Protocol(ProtocolViolation::UnexpectedFrame),
            ),
            BridgeOutcome::Failed(error) => self.failing(
                SessionState::Shell(Stage::Reaping),
                SessionError::Bridge(error),
            ),
        }
    }

    /// Whether `event` is an answer to what the session is waiting for.
    pub open spec fn accepts(self, event: Event) -> bool {
        match self.state {
            SessionState::AwaitingCapability => event is Request || event == Event::UnexpectedFrame
                || event == Event::TransportClosed,
            SessionState::Serving(_) => event == Event::Served,
            SessionState::Shell(Stage::AcquiringGate) => event == Event::GateAcquired,
            SessionState::Shell(Stage::Assuming) => event == Event::Assumed || event
                == Event::AssumeFailed,
            SessionState::Shell(Stage::Launching) => event == Event::Launched
                || event is LaunchFailed,
            SessionState::Shell(Stage::Bridging) => event is BridgeEnded,
            SessionState::Shell(Stage::Reaping) => event == Event::Reaped,
            SessionState::Shell(Stage::Restoring) => event == Event::Restored || event
                == Event::RestoreFailed,
            SessionState::Shell(Stage::Releasing) => event == Event::GateReleased,
            SessionState::Closing => event == Event::CloseSent || event == Event::TransportClosed,
            SessionState::Closed => false,
            SessionState::Aborted => false,
        }
    }

    /// The session after `event`. An event that is not accepted changes
    /// nothing.
    pub open spec fn after(self, event: Event) -> SessionView {
        if !self.accepts(event) {
            self
        } else {
            match event {
                Event::Request(capability) => self.after_request(capability),
                Event::UnexpectedFrame => self.failing(
                    SessionState::Closing,
                    SessionError::Protocol(ProtocolViolation::UnexpectedFrame),
                ),
                Event::TransportClosed => if self.state == SessionState::Closing {
                    self.moving(SessionState::Closed)
                } else {
                    self.moving(SessionState::Closing)
                },
                Event::Served => self.moving(SessionState::Closing),
                Event::GateAcquired => self.moving(SessionState::Shell(Stage::Assuming)),
                Event::Assumed => self.moving(SessionState::Shell(Stage::Launching)),
                Event::AssumeFailed => self.failing(
                    SessionState::Shell(Stage::Restoring),
                    SessionError::Privilege(PrivilegeError::AssumeFailed),
                ),
                Event::Launched => self.moving(SessionState::Shell(Stage::Bridging)),
                Event::LaunchFailed(error) => self.failing(
                    SessionState::Shell(Stage::Restoring),
                    SessionError::Launch(error),
                ),
                Event::BridgeEnded(outcome) => self.after_bridge(outcome),
                Event::Reaped => self.moving(SessionState::Shell(Stage::Restoring)),
                Event::Restored => self.moving(SessionState::Shell(Stage::Releasing)),
                Event::RestoreFailed => SessionView {
                    state: SessionState::Aborted,
                    error: Some(SessionError::Privilege(PrivilegeError::RestoreFailed)),
                    ..self
                },
                Event::GateReleased => self.moving(SessionState::Closing),
                Event::CloseSent => self.moving(SessionState::Closed),
            }
        }
    }

    /// What the session in this state waits for the program to do.
    pub open spec fn command(self) -> Action {
        match self.state {
            SessionState::AwaitingCapability => Action::Receive,
            SessionState::Serving(capability) => Action::Serve(capability),
            SessionState::Shell(Stage::AcquiringGate) => Action::AcquireGate,
            SessionState::Shell(Stage::Assuming) => Action::Assume,
            SessionState::Shell(Stage::Launching) => Action::Launch,
            SessionState::Shell(Stage::Bridging) => Action::Bridge,
            SessionState::Shell(Stage::Reaping) => Action::Reap,
            SessionState::Shell(Stage::Restoring) => Action::Restore,
            SessionState::Shell(Stage::Releasing) => Action::ReleaseGate,
            SessionState::Closing => Action::Close(self.error),
            SessionState::Closed => Action::Stop,
            SessionState::Aborted => Action::Abort,
        }
    }

    /// What the session answers to `event`.
    pub open spec fn answer(self, event: Event) -> Action {
        if self.accepts(event) {
            self.after(event).command()
        } else {
            Action::Wait
        }
    }

    /// How the session ended, once it is closed: `Ok` when it met no error.
    pub open spec fn result(self) -> Option<Result<(), SessionError>> {
        if self.state == SessionState::Closed || self.state == SessionState::Aborted {
            match self.error {
                None => Some(Ok(())),
                Some(error) => Some(Err(error)),
            }
        } else {
            None
        }
    }

    /// Whether the session has been admitted and has not given the
    /// admission back.
    pub open spec fn holds_gate(self) -> bool {
        self.state matches SessionState::Shell(stage) && stage != Stage::AcquiringGate
    }

    /// Whether the target account has been taken on, or is being taken on,
    /// and the original privilege is not being given back yet.
    pub open spec fn is_assumed(self) -> bool {
        self.state matches SessionState::Shell(stage) && (stage == Stage::Assuming || stage
            == Stage::Launching || stage == Stage::Bridging || stage == Stage::Reaping)
    }

    /// Whether a child process exists that has not been waited for.
    pub open spec fn has_child(self) -> bool {
        self.state matches SessionState::Shell(stage) && (stage == Stage::Bridging || stage
            == Stage::Reaping)
    }
}

/// One connection on its way from the request to the last frame.
#[derive(Debug)]
pub struct Session {
    state: SessionState,
    error: Option<SessionError>,
    identity_resolved: bool,
    may_administer: bool,
}

impl View for Session {
    type V = SessionView;

    closed spec fn view(&self) -> SessionView {
        SessionView {
            state: self.state,
            error: self.error,
            identity_resolved: self.identity_resolved,
            may_administer: self.may_administer,
        }
    }
}

impl Session {
    /// A session for a peer that has just been authenticated.
    /// `identity_resolved` says whether the account to run as was found, and
    /// `may_administer` whether it may change the daemon's settings.
    pub fn new(identity_resolved: bool, may_administer: bool) -> (session: Session)
        ensures
            session@ == SessionView::initial(identity_resolved, may_administer),
    {
        Session {
            state: SessionState::AwaitingCapability,
            error: None,
            identity_resolved,
            may_administer,
        }
    }

    /// The state of the session.
    pub fn state(&self) -> (state: SessionState)
        ensures
            state == self@.state,
    {
        self.state
    }

    /// The error that the session ends with, if it has met one.
    pub fn error(&self) -> (error: Option<SessionError>)
        ensures
            error == self@.error,
    {
        self.error
    }

    /// What the session waits for the program to do.
    pub fn command(&self) -> (action: Action)
        ensures
            action == self@.command(),
    {
        match self.state {
            SessionState::AwaitingCapability => Action::Receive,
            SessionState::Serving(capability) => Action::Serve(capability),
            SessionState::Shell(Stage::AcquiringGate) => Action::AcquireGate,
            SessionState::Shell(Stage::Assuming) => Action::Assume,
            SessionState::Shell(Stage::Launching) => Action::Launch,
            SessionState::Shell(Stage::Bridging) => Action::Bridge,
            SessionState::Shell(Stage::Reaping) => Action::Reap,
            SessionState::Shell(Stage::Restoring) => Action::Restore,
            SessionState::Shell(Stage::Releasing) => Action::ReleaseGate,
            SessionState::Closing => Action::Close(self.error),
            SessionState::Closed => Action::Stop,
            SessionState::Aborted => Action::Abort,
        }
    }

    /// How the session ended: `None` while it is under way.
    pub fn result(&self) -> (result: Option<Result<(), SessionError>>)
        ensures
            result == self@.result(),
    {
        match self.state {
            SessionState::Closed | SessionState::Aborted => match self.error {
                None => Some(Ok(())),
                Some(error) => Some(Err(error)),
            },
            _ => None,
        }
    }

    fn fail(&mut self, state: SessionState, error: SessionError)
        ensures
            final(self)@ == old(self)@.failing(state, error),
    {
        self.state = state;
        if self.error.is_none() {
            self.error = Some(error);
        }
    }

    fn request(&mut self, capability: Capability)
        ensures
            final(self)@ == old(self)@.after_request(capability),
    {
        match capability {
            Capability::Shell => {
                if self.identity_resolved {
                    self.state = SessionState::Shell(Stage::AcquiringGate);
                } else {
                    self.fail(
                        SessionState::Closing,
                        SessionError::Launch(LaunchError::IdentityUnresolved),
                    );
                }
            },
            Capability::Status
            | Capability::StatusPower
            | Capability::StatusStorage
            | Capability::SettingsPull => {
                self.state = SessionState::Serving(capability);
            },
            Capability::SettingsPush => {
                if self.may_administer {
                    self.state = SessionState::Serving(capability);
                } else {
                    self.fail(
                        SessionState::Closing,
                        SessionError::Protocol(ProtocolViolation::NotPermitted),
                    );
                }
            },
            Capability::Plugin | Capability::Update | Capability::Manage | Capability::Unknown => {
                self.fail(
                    SessionState::Closing,
                    SessionError::Protocol(ProtocolViolation::UnknownCapability),
                );
            },
        }
    }

    fn bridge_ended(&mut self, outcome: BridgeOutcome)
        ensures
            final(self)@ == old(self)@.after_bridge(outcome),
    {
        match outcome {
            BridgeOutcome::ChildExited => {
                self.state = SessionState::Shell(Stage::Restoring);
            },
            BridgeOutcome::TransportClosed => {
                self.state = SessionState::Shell(Stage::Reaping);
            },
            BridgeOutcome::ProtocolViolation => {
                self.fail(
                    SessionState::Shell(Stage::Reaping),
                    SessionError::Protocol(ProtocolViolation::UnexpectedFrame),
                );
            },
            BridgeOutcome::Failed(error) => {
                self.fail(SessionState::Shell(Stage::Reaping), SessionError::Bridge(error));
            },
        }
    }

    /// Takes the report of what happened and says what to do next.
    ///
    /// An event that answers what the session waits for moves it on, and the
    /// answer is the action of the new state. Any other event changes
    /// nothing and is answered with [`Action::Wait`].
    pub fn step(&mut self, event: Event) -> (action: Action)
        ensures
            final(self)@ == old(self)@.after(event),
            action == old(self)@.answer(event),
    {
        match (self.state, event) {
            (SessionState::AwaitingCapability, Event::Request(capability)) => {
                self.request(capability);
            },
            (SessionState::AwaitingCapability, Event::UnexpectedFrame) => {
                self.fail(
                    SessionState::Closing,
                    SessionError::Protocol(ProtocolViolation::UnexpectedFrame),
                );
            },
            (SessionState::AwaitingCapability, Event::TransportClosed) => {
                self.state = SessionState::Closing;
            },
            (SessionState::Serving(_), Event::Served) => {
                self.state = SessionState::Closing;
            },
            (SessionState::Shell(Stage::AcquiringGate), Event::GateAcquired) => {
                self.state = SessionState::Shell(Stage::Assuming);
            },
            (SessionState::Shell(Stage::Assuming), Event::Assumed) => {
                self.state = SessionState::Shell(Stage::Launching);
            },
            (SessionState::Shell(Stage::Assuming), Event::AssumeFailed) => {
                self.fail(
                    SessionState::Shell(Stage::Restoring),
                    SessionError::Privilege(PrivilegeError::AssumeFailed),
                );
            },
            (SessionState::Shell(Stage::Launching), Event::Launched) => {
                self.state = SessionState::Shell(Stage::Bridging);
            },
            (SessionState::Shell(Stage::Launching), Event::LaunchFailed(error)) => {
                self.fail(SessionState::Shell(Stage::Restoring), SessionError::Launch(error));
            },
            (SessionState::Shell(Stage::Bridging), Event::BridgeEnded(outcome)) => {
                self.bridge_ended(outcome);
            },
            (SessionState::Shell(Stage::Reaping), Event::Reaped) => {
                self.state = SessionState::Shell(Stage::Restoring);
            },
            (SessionState::Shell(Stage::Restoring), Event::Restored) => {
                self.state = SessionState::Shell(Stage::Releasing);
            },
            (SessionState::Shell(Stage::Restoring), Event::RestoreFailed) => {
                self.state = SessionState::Aborted;
                self.error = Some(SessionError::Privilege(PrivilegeError::RestoreFailed));
            },
            (SessionState::Shell(Stage::Releasing), Event::GateReleased) => {
                self.state = SessionState::Closing;
            },
            (SessionState::Closing, Event::CloseSent) => {
                self.state = SessionState::Closed;
            },
            (SessionState::Closing, Event::TransportClosed) => {
                self.state = SessionState::Closed;
            },
            _ => {
                return Action::Wait;
            },
        }
        self.command()
    }
}

} // verus!
