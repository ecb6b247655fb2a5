//! Who the peer is and what it may do.
//!
//! The check of a password against the system is made by the program around
//! the library. Here is how the peer's message is read, how the system's
//! answer is classified, and which accounts count as administrators.

use vstd::prelude::*;
use vstd::string::StringExecFns;
use crate::bridge::Frame;
use crate::text::{listed, lists, same_text, text_of, to_chars};

verus! {

/// Why an authentication failed.
#[derive(Debug)]
pub enum AuthenticateError {
    /// The name or the password is wrong.
    Invaild,
    /// The authentication service failed; the words are its report.
    PamError(String),
}

/// The code of the authentication service for a wrong password.
pub const PAM_AUTH_ERR: i32 = 7;

/// The code of the authentication service for a name that it does not know.
pub const PAM_USER_UNKNOWN: i32 = 10;

/// Whether a code of the authentication service stands for a wrong name or
/// a wrong password.
pub open spec fn is_refusal_code(code: i32) -> bool {
    code == PAM_AUTH_ERR || code == PAM_USER_UNKNOWN
}

/// Whether a report of the authentication service stands for a wrong name
/// or a wrong password.
pub open spec fn is_refusal_report(report: Seq<char>) -> bool {
    report == "AUTH_ERR"@ || report == "USER_UNKNOWN"@
}

impl AuthenticateError {
    /// Classifies a failure of the authentication service by its code. A
    /// wrong password and an unknown name are told to the peer as one and
    /// the same; any other failure keeps the report of the service.
    pub fn from_code(code: i32, report: &str) -> (error: AuthenticateError)
        ensures
            is_refusal_code(code) ==> error is Invaild,
            !is_refusal_code(code) ==> (error matches AuthenticateError::PamError(words) && words@
                == report@),
    {
        if code == PAM_AUTH_ERR || code == PAM_USER_UNKNOWN {
            AuthenticateError::Invaild
        } else {
            AuthenticateError::PamError(String::from_str(report))
        }
    }

    /// Classifies a failure of the authentication service by its report,
    /// where the service gives no code.
    pub fn from_report(report: &str) -> (error: AuthenticateError)
        ensures
            is_refusal_report(report@) ==> error is Invaild,
            !is_refusal_report(report@) ==> (error matches AuthenticateError::PamError(words)
                && words@ == report@),
    {
        if same_text(report, "AUTH_ERR") || same_text(report, "USER_UNKNOWN") {
            AuthenticateError::Invaild
        } else {
            AuthenticateError::PamError(String::from_str(report))
        }
    }

    /// The error in words.
    pub open spec fn message_of(self) -> Seq<char> {
        match self {
            AuthenticateError::Invaild => "Invaild username or password"@,
            AuthenticateError::PamError(report) => "Authenticate error: "@ + report@,
        }
    }

    /// Says the error in words.
    pub fn message(&self) -> (message: String)
        ensures
            message@ == self.message_of(),
    {
        match self {
            AuthenticateError::Invaild => String::from_str("Invaild username or password"),
            AuthenticateError::PamError(report) => String::from_str("Authenticate error: ").concat(
                report.as_str(),
            ),
        }
    }

    /// Whether the name or the password was wrong.
    pub fn is_invaild(&self) -> (invalid: bool)
        ensures
            invalid == (self is Invaild),
    {
        match self {
            AuthenticateError::Invaild => true,
            AuthenticateError::PamError(_) => false,
        }
    }
}

/// Reads the message by which a peer authenticates: the name, a colon, and
/// the password. The name ends at the first colon, so the password may hold
/// colons and the name may not. A message without a colon is none.
pub fn split_credentials(message: &str) -> (credentials: Option<(String, String)>)
    ensures
        match credentials {
            Some((name, password)) => !name@.contains(':') && message@ == name@.push(':')
                + password@,
            None => !message@.contains(':'),
        },
{
    let chars = to_chars(message);
    let mut i: usize = 0;
    while i < chars.len()
        invariant
            i <= chars.len(),
            chars@ == message@,
            forall|j: int| 0 <= j < i ==> chars@[j] != ':',
        decreases chars.len() - i,
    {
        if chars[i] == ':' {
            let name = text_of(&chars, 0, i);
            let password = text_of(&chars, i + 1, chars.len());
            assert(message@ =~= name@.push(':') + password@);
            return Some((name, password));
        }
        i = i + 1;
    }
    None
}

/// What a peer opens a connection with.
#[derive(Debug)]
pub enum Greeting {
    /// A name and a password, still to be checked.
    Credentials(String, String),
    /// A text that is no name and password. The peer is told that it could
    /// not be authenticated, as if the password were wrong.
    Malformed,
    /// No text at all. The peer is told nothing.
    Missing,
}

/// Reads the first frame of a connection. Only a text frame can hold the
/// name and the password; `None` stands for a transport that ended without
/// a frame.
pub fn read_greeting(frame: Option<&Frame>) -> (greeting: Greeting)
    ensures
        match frame {
            Some(Frame::Text(message)) => match greeting {
                Greeting::Credentials(name, password) => !name@.contains(':') && message@
                    == name@.push(':') + password@,
                Greeting::Malformed => !message@.contains(':'),
                Greeting::Missing => false,
            },
            _ => greeting is Missing,
        },
{
    match frame {
        Some(Frame::Text(message)) => match split_credentials(message.as_str()) {
            Some((name, password)) => Greeting::Credentials(name, password),
            None => Greeting::Malformed,
        },
        _ => Greeting::Missing,
    }
}

/// Whether an account with these groups is an administrator of the system:
/// it belongs to the group `sudo` or to the group `wheel`.
pub open spec fn administers(groups: Seq<String>) -> bool {
    lists(groups, "sudo"@) || lists(groups, "wheel"@)
}

/// Tells whether an account is an administrator of the system. `groups`
/// holds the names of the groups that the account belongs to.
pub fn is_sudo(groups: &Vec<String>) -> (sudo: bool)
    ensures
        sudo == administers(groups@),
{
    listed(groups, "sudo") || listed(groups, "wheel")
}

/// Tells whether the account `name` leads a group. `leaders` holds the names
/// of the group's leaders.
pub fn is_group_leader(name: &str, leaders: &Vec<String>) -> (leads: bool)
    ensures
        leads == lists(leaders@, name@),
{
    listed(leaders, name)
}

} // verus!
