//! What can end a session early.

use vstd::prelude::*;

verus! {

/// The error type of the standard library for input and output. The library
/// carries such a value and never looks inside.
#[verifier::external_type_specification]
#[verifier::external_body]
pub struct ExIoError(std::io::Error);

/// Says in words what went wrong with an input or output operation.
///
/// Calls `to_string` of the standard library on the error. The words depend
/// on the system, so nothing is claimed of them.
#[verifier::external_body]
pub(crate) fn describe_io(error: &std::io::Error) -> (words: String) {
    error.to_string()
}

/// Why no child process could be started. The session never ran.
#[derive(Clone, Copy, Debug, PartialEq, Eq, Structural)]
pub enum LaunchError {
    /// The account that the session should run as could not be resolved.
    IdentityUnresolved,
    /// The login shell's path cannot be handed to the system (it is empty or
    /// holds a zero byte), or the file is not executable.
    ShellNotExecutable,
    /// The system has no terminal or descriptor left to give.
    ResourceExhausted,
    /// Neither a terminal nor pipes could be set up, for the reason given
    /// by the system's error number.
    TerminalFailed(i32),
    /// The system refused to create a new process.
    ForkFailed(i32),
    /// The child ended during its set-up with the given exit status.
    ChildSetupFailed(u8),
    /// The child did not open its side of the terminal in time.
    ReadyTimeout,
}

/// Which half of a privilege switch failed.
#[derive(Clone, Copy, Debug, PartialEq, Eq, Structural)]
pub enum PrivilegeError {
    /// Taking on the target account failed. No child exists yet.
    AssumeFailed,
    /// Giving the original privilege back failed. The daemon must not go on.
    RestoreFailed,
}

/// A failed read or write on the terminal during a session, with the
/// system's error number.
#[derive(Clone, Copy, Debug, PartialEq, Eq, Structural)]
pub enum BridgeError {
    ReadFailed(i32),
    WriteFailed(i32),
}

/// What the peer did that the protocol does not allow.
#[derive(Clone, Copy, Debug, PartialEq, Eq, Structural)]
pub enum ProtocolViolation {
    /// A frame of a kind that is not accepted in the current state.
    UnexpectedFrame,
    /// A request for something the daemon does not offer.
    UnknownCapability,
    /// A request that the authenticated account is not allowed to make.
    NotPermitted,
}

/// Why a session ended, when it did not end normally.
#[derive(Clone, Copy, Debug, PartialEq, Eq, Structural)]
pub enum SessionError {
    Launch(LaunchError),
    Privilege(PrivilegeError),
    Bridge(BridgeError),
    Protocol(ProtocolViolation),
}

impl SessionError {
    /// True for the one error after which the whole daemon has to stop:
    /// privilege that could not be given back.
    pub open spec fn is_fatal(self) -> bool {
        self == SessionError::Privilege(PrivilegeError::RestoreFailed)
    }

    /// Tells whether the daemon as a whole has to stop on this error.
    pub fn fatal(&self) -> (fatal: bool)
        ensures
            fatal == self.is_fatal(),
    {
        match self {
            SessionError::Privilege(PrivilegeError::RestoreFailed) => true,
            _ => false,
        }
    }
}

} // verus!
