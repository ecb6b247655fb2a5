//! What the daemon says to a peer.
//!
//! The texts of the answers stand here, each once, and also how an error of
//! a session becomes the last frames on the transport.

use vstd::prelude::*;
use vstd::string::StringExecFns;
use crate::bridge::{Frame, FrameView};
use crate::errors::{BridgeError, LaunchError, PrivilegeError, ProtocolViolation, SessionError};

verus! {

/// The error type of the `serde_json` crate. The library carries such a
/// value and never looks inside.
#[verifier::external_type_specification]
#[verifier::external_body]
pub struct ExJsonError(serde_json::Error);

/// An answer of the daemon that is a text of its own.
#[derive(Debug)]
pub enum Reply {
    /// The peer is authenticated and may name what it wants.
    Ready,
    /// The peer could not be authenticated.
    InvalidUser,
    /// The daemon does not offer what the peer asked for.
    InvalidRequest,
    /// The peer may not change the settings.
    NotPermitted,
    /// The new settings are stored.
    Saved,
    /// The charge of the battery could not be read.
    PowerFailed,
    /// The free share of the disks could not be read.
    StorageFailed,
    /// The state of the machine could not be put together, for this reason.
    StatusFailed(String),
    /// The settings could not be loaded, for this reason.
    SettingsLoadFailed(String),
    /// The new settings could not be read, for this reason.
    SettingsRejected(String),
    /// The new settings could not be stored, for this reason.
    SettingsSaveFailed(String),
    /// The session is over.
    Done,
}

impl Reply {
    /// The text of the answer.
    pub open spec fn text_of(self) -> Seq<char> {
        match self {
            Reply::Ready => "READY"@,
            Reply::InvalidUser => "ERROR: invalid user"@,
            Reply::InvalidRequest => "ERROR: invalid request"@,
            Reply::NotPermitted => "ERROR: You don't have permisson to change settings please contact your system admin"@,
            Reply::Saved => "SAVED"@,
            Reply::PowerFailed => "ERROR: Failed to check power"@,
            Reply::StorageFailed => "ERROR: Failed to check storage"@,
            Reply::StatusFailed(reason) => "ERROR: invalid status "@ + reason@,
            Reply::SettingsLoadFailed(reason) => "ERROR: failed to load settings "@ + reason@,
            Reply::SettingsRejected(reason) => "ERROR: failed to set new settings due to error "@
                + reason@,
            Reply::SettingsSaveFailed(reason) => "ERROR: failed to save settings due to error "@
                + reason@,
            Reply::Done => "done"@,
        }
    }

    /// The text of the answer.
    pub fn text(&self) -> (text: String)
        ensures
            text@ == self.text_of(),
    {
        match self {
            Reply::Ready => String::from_str("READY"),
            Reply::InvalidUser => String::from_str("ERROR: invalid user"),
            Reply::InvalidRequest => String::from_str("ERROR: invalid request"),
            Reply::NotPermitted => String::from_str(
                "ERROR: You don't have permisson to change settings please contact your system admin",
            ),
            Reply::Saved => String::from_str("SAVED"),
            Reply::PowerFailed => String::from_str("ERROR: Failed to check power"),
            Reply::StorageFailed => String::from_str("ERROR: Failed to check storage"),
            Reply::StatusFailed(reason) => String::from_str("ERROR: invalid status ").concat(
                reason.as_str(),
            ),
            Reply::SettingsLoadFailed(reason) => String::from_str(
                "ERROR: failed to load settings ",
            ).concat(reason.as_str()),
            Reply::SettingsRejected(reason) => String::from_str(
                "ERROR: failed to set new settings due to error ",
            ).concat(reason.as_str()),
            Reply::SettingsSaveFailed(reason) => String::from_str(
                "ERROR: failed to save settings due to error ",
            ).concat(reason.as_str()),
            Reply::Done => String::from_str("done"),
        }
    }

    /// The answer to the peer's authentication: whether the account was
    /// found and the password was right.
    pub fn to_authentication(authenticated: bool) -> (reply: Reply)
        ensures
            reply == if authenticated {
                Reply::Ready
            } else {
                Reply::InvalidUser
            },
    {
        if authenticated {
            Reply::Ready
        } else {
            Reply::InvalidUser
        }
    }
}

/// What the peer is told of an error of its session.
pub open spec fn error_text_of(error: SessionError) -> Seq<char> {
    match error {
        SessionError::Launch(LaunchError::IdentityUnresolved) => "ERROR: invalid user"@,
        SessionError::Launch(LaunchError::ShellNotExecutable) => "ERROR: the shell cannot be executed"@,
        SessionError::Launch(LaunchError::ResourceExhausted) => "ERROR: no terminal is left"@,
        SessionError::Launch(LaunchError::TerminalFailed(_)) => "ERROR: Failed to open a terminal"@,
        SessionError::Launch(LaunchError::ForkFailed(_)) => "ERROR: Failed to fork"@,
        SessionError::Launch(LaunchError::ChildSetupFailed(_)) => "ERROR: Failed to set up the shell"@,
        SessionError::Launch(LaunchError::ReadyTimeout) => "ERROR: the shell did not start in time"@,
        SessionError::Privilege(PrivilegeError::AssumeFailed) => "ERROR: Failed to take on the account"@,
        SessionError::Privilege(PrivilegeError::RestoreFailed) => "ERROR: Failed to give privilege back"@,
        SessionError::Bridge(BridgeError::ReadFailed(_)) => "ERROR: read failed"@,
        SessionError::Bridge(BridgeError::WriteFailed(_)) => "ERROR: write failed"@,
        SessionError::Protocol(ProtocolViolation::UnexpectedFrame) => "ERROR: unexpected frame"@,
        SessionError::Protocol(ProtocolViolation::UnknownCapability) => "ERROR: invalid request"@,
        SessionError::Protocol(ProtocolViolation::NotPermitted) => "ERROR: You don't have permisson to change settings please contact your system admin"@,
    }
}

/// Says what the peer is told of an error of its session.
pub fn error_text(error: SessionError) -> (text: String)
    ensures
        text@ == error_text_of(error),
{
    match error {
        SessionError::Launch(LaunchError::IdentityUnresolved) => String::from_str(
            "ERROR: invalid user",
        ),
        SessionError::Launch(LaunchError::ShellNotExecutable) => String::from_str(
            "ERROR: the shell cannot be executed",
        ),
        SessionError::Launch(LaunchError::ResourceExhausted) => String::from_str(
            "ERROR: no terminal is left",
        ),
        SessionError::Launch(LaunchError::TerminalFailed(_)) => String::from_str(
            "ERROR: Failed to open a terminal",
        ),
        SessionError::Launch(LaunchError::ForkFailed(_)) => String::from_str(
            "ERROR: Failed to fork",
        ),
        SessionError::Launch(LaunchError::ChildSetupFailed(_)) => String::from_str(
            "ERROR: Failed to set up the shell",
        ),
        SessionError::Launch(LaunchError::ReadyTimeout) => String::from_str(
            "ERROR: the shell did not start in time",
        ),
        SessionError::Privilege(PrivilegeError::AssumeFailed) => String::from_str(
            "ERROR: Failed to take on the account",
        ),
        SessionError::Privilege(PrivilegeError::RestoreFailed) => String::from_str(
            "ERROR: Failed to give privilege back",
        ),
        SessionError::Bridge(BridgeError::ReadFailed(_)) => String::from_str("ERROR: read failed"),
        SessionError::Bridge(BridgeError::WriteFailed(_)) => String::from_str(
            "ERROR: write failed",
        ),
        SessionError::Protocol(ProtocolViolation::UnexpectedFrame) => String::from_str(
            "ERROR: unexpected frame",
        ),
        SessionError::Protocol(ProtocolViolation::UnknownCapability) => String::from_str(
            "ERROR: invalid request",
        ),
        SessionError::Protocol(ProtocolViolation::NotPermitted) => String::from_str(
            "ERROR: You don't have permisson to change settings please contact your system admin",
        ),
    }
}

/// The last frames of a session: for a session that met an error, one text
/// frame that says which, and then the frame that closes; for any other
/// session the closing frame alone.
pub open spec fn closing_frames_of(error: Option<SessionError>) -> Seq<FrameView> {
    match error {
        Some(error) => seq![FrameView::Text(error_text_of(error)), FrameView::Close],
        None => seq![FrameView::Close],
    }
}

/// The views of a list of frames.
pub open spec fn frames_view(frames: Seq<Frame>) -> Seq<FrameView> {
    Seq::new(frames.len(), |i: int| frames[i]@)
}

/// Makes the last frames of a session, in the order in which they are sent.
pub fn closing_frames(error: Option<SessionError>) -> (frames: Vec<Frame>)
    ensures
        frames_view(frames@) == closing_frames_of(error),
{
    let mut frames: Vec<Frame> = Vec::new();
    match error {
        Some(error) => {
            frames.push(Frame::Text(error_text(error)));
        },
        None => {},
    }
    frames.push(Frame::Close);
    assert(frames_view(frames@) =~= closing_frames_of(error));
    frames
}

/// The digit for a number below ten.
pub open spec fn digit(value: nat) -> char {
    if value == 0 {
        '0'
    } else if value == 1 {
        '1'
    } else if value == 2 {
        '2'
    } else if value == 3 {
        '3'
    } else if value == 4 {
        '4'
    } else if value == 5 {
        '5'
    } else if value == 6 {
        '6'
    } else if value == 7 {
        '7'
    } else if value == 8 {
        '8'
    } else {
        '9'
    }
}

/// A number in decimal digits, without leading zeros.
pub open spec fn decimal_of(value: nat) -> Seq<char>
    decreases value,
{
    if value < 10 {
        seq![digit(value)]
    } else {
        decimal_of(value / 10).push(digit(value % 10))
    }
}

/// Writes a small number as JSON.
///
/// Calls `serde_json::to_string` on the number. Where the call succeeds, the
/// text is the number in decimal digits. That it succeeds is not claimed.
#[verifier::external_body]
fn number_to_json(value: u8) -> (json: Result<String, serde_json::Error>)
    ensures
        json matches Ok(text) ==> text@ == decimal_of(value as nat),
{
    serde_json::to_string(&value)
}

/// What the peer is sent for a percentage, given what writing it as JSON
/// came to: the JSON where there is some, and the text of `failure` where
/// there is none.
pub fn percentage_answer(json: Result<String, serde_json::Error>, failure: Reply) -> (answer:
    String)
    ensures
        match json {
            Ok(text) => answer == text,
            Err(_) => answer@ == failure.text_of(),
        },
{
    match json {
        Ok(text) => text,
        Err(_) => failure.text(),
    }
}

/// The answer to a request for a percentage. `value` is the percentage,
/// where it could be read. The answer is the number as JSON, and the text of
/// `failure` where the percentage could not be read or not be written.
pub fn percentage_reply(value: Option<u8>, failure: Reply) -> (answer: String)
    ensures
        answer@ == failure.text_of() || (value is Some && answer@ == decimal_of(
            value->Some_0 as nat,
        )),
        value is None ==> answer@ == failure.text_of(),
{
    match value {
        Some(value) => percentage_answer(number_to_json(value), failure),
        None => failure.text(),
    }
}

} // verus!
