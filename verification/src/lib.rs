//! Privileged interactive sessions for a system administration daemon.
//!
//! The crate holds the decisions of the daemon: which account a session runs
//! as, in which order privilege is changed and given back, how a child shell is
//! set up, how bytes move between the network and the terminal, and how one
//! connection walks through its states. The operating system calls themselves
//! are made by the program around this library, which reports their results
//! back as plain values.

pub mod auth;
pub mod bridge;
pub mod errors;
pub mod exclusion;
pub mod gate;
pub mod handlers;
pub mod identity;
pub mod launch;
pub mod launcher;
pub mod management;
pub mod privilege;
pub mod session;
pub mod session_laws;
pub mod settings;
pub mod status;
pub mod templates;
pub mod text;
pub mod update_manager;
pub mod users;
pub mod wire;

use vstd::prelude::*;
use crate::text::same_text;

verus! {

/// The request methods that the daemon tells apart.
#[derive(Clone, Copy, Debug, PartialEq, Eq, Structural)]
pub enum Method {
    GET,
    POST,
    PUT,
    DELETE,
    HEAD,
    TRACE,
    CONNECT,
    PATCH,
    UNKNOWN,
}

impl Method {
    /// The method that a request line names. Names are told apart by case;
    /// a name that is none of the eight is [`Method::UNKNOWN`].
    pub open spec fn named(name: Seq<char>) -> Method {
        if name == "GET"@ {
            Method::GET
        } else if name == "POST"@ {
            Method::POST
        } else if name == "PUT"@ {
            Method::PUT
        } else if name == "DELETE"@ {
            Method::DELETE
        } else if name == "HEAD"@ {
            Method::HEAD
        } else if name == "TRACE"@ {
            Method::TRACE
        } else if name == "CONNECT"@ {
            Method::CONNECT
        } else if name == "PATCH"@ {
            Method::PATCH
        } else {
            Method::UNKNOWN
        }
    }

    /// Reads the name of a method.
    pub fn from_name(name: &str) -> (method: Method)
        ensures
            method == Method::named(name@),
    {
        if same_text(name, "GET") {
            Method::GET
        } else if same_text(name, "POST") {
            Method::POST
        } else if same_text(name, "PUT") {
            Method::PUT
        } else if same_text(name, "DELETE") {
            Method::DELETE
        } else if same_text(name, "HEAD") {
            Method::HEAD
        } else if same_text(name, "TRACE") {
            Method::TRACE
        } else if same_text(name, "CONNECT") {
            Method::CONNECT
        } else if same_text(name, "PATCH") {
            Method::PATCH
        } else {
            Method::UNKNOWN
        }
    }
}

} // verus!
