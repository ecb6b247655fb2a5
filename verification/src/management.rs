//! The accounts and groups of the system.
//!
//! The system's own tools add and remove accounts; the program around the
//! library runs them. What is written to them, what is made of their output
//! and what is said when they fail is decided here.

use vstd::prelude::*;
use vstd::string::StringExecFns;
use crate::errors::describe_io;
use crate::text::{same_text, texts_view, words, words_of};

verus! {

/// Why the management of accounts failed.
#[derive(Debug)]
pub enum ManagementError {
    /// A tool could not be started, or its output not be read.
    IOError(std::io::Error),
    /// A tool ended without success; the words are its exit status.
    ExitError(String),
    /// The task that ran a tool broke down; the words say how.
    TaskError(String),
    /// A tool reported failure; the words say what was being done.
    CommandFailed(String),
}

impl From<std::io::Error> for ManagementError {
    fn from(value: std::io::Error) -> (error: ManagementError) {
        ManagementError::IOError(value)
    }
}

impl vstd::std_specs::convert::FromSpecImpl<std::io::Error> for ManagementError {
    open spec fn obeys_from_spec() -> bool {
        true
    }

    open spec fn from_spec(value: std::io::Error) -> ManagementError {
        ManagementError::IOError(value)
    }
}

impl ManagementError {
    /// The error in words. An error of input or output reads as the system
    /// says it.
    pub fn message(&self) -> (message: String)
        ensures
            match self {
                ManagementError::IOError(_) => true,
                ManagementError::ExitError(status) => message@ == "Command failed with status: "@
                    + status@,
                ManagementError::TaskError(words) => message@ == words@,
                ManagementError::CommandFailed(words) => message@ == words@,
            },
    {
        match self {
            ManagementError::IOError(error) => describe_io(error),
            ManagementError::ExitError(status) => String::from_str(
                "Command failed with status: ",
            ).concat(status.as_str()),
            ManagementError::TaskError(words) => words.clone(),
            ManagementError::CommandFailed(words) => words.clone(),
        }
    }
}

/// What is being done to an account or a group.
#[derive(Debug)]
pub enum Task {
    /// Put the account into the group.
    AddToGroup { username: String, group: String },
    /// Take the account out of the group.
    RemoveFromGroup { username: String, group: String },
    /// Make the group.
    CreateGroup { group: String },
    /// Delete the account.
    DeleteUser { username: String },
    /// Ask for the groups of an account.
    ListGroups,
}

impl Task {
    /// What is said when the task fails.
    pub open spec fn failure_of(self) -> Seq<char> {
        match self {
            Task::AddToGroup { username, group } => "Failed to add "@ + username@ + " to group "@
                + group@,
            Task::RemoveFromGroup { username, group } => "Failed to remove "@ + username@
                + " from group "@ + group@,
            Task::CreateGroup { group } => "Failed to create group "@ + group@,
            Task::DeleteUser { username } => "Failed to delete user "@ + username@,
            Task::ListGroups => "Failed to get user's groups"@,
        }
    }

    /// Says what went wrong when the task fails.
    pub fn failure(&self) -> (words: String)
        ensures
            words@ == self.failure_of(),
    {
        match self {
            Task::AddToGroup { username, group } => String::from_str("Failed to add ").concat(
                username.as_str(),
            ).concat(" to group ").concat(group.as_str()),
            Task::RemoveFromGroup { username, group } => String::from_str(
                "Failed to remove ",
            ).concat(username.as_str()).concat(" from group ").concat(group.as_str()),
            Task::CreateGroup { group } => String::from_str("Failed to create group ").concat(
                group.as_str(),
            ),
            Task::DeleteUser { username } => String::from_str("Failed to delete user ").concat(
                username.as_str(),
            ),
            Task::ListGroups => String::from_str("Failed to get user's groups"),
        }
    }

    /// The result of the task, given whether its tool reported success.
    pub fn outcome(&self, succeeded: bool) -> (result: Result<(), ManagementError>)
        ensures
            succeeded ==> result is Ok,
            !succeeded ==> (result matches Err(ManagementError::CommandFailed(words)) && words@
                == self.failure_of()),
    {
        if succeeded {
            Ok(())
        } else {
            Err(ManagementError::CommandFailed(self.failure()))
        }
    }
}

/// The result of a tool whose exit status is all there is to say: success,
/// or the status, in words, as the error.
pub fn exit_outcome(succeeded: bool, status: &str) -> (result: Result<(), ManagementError>)
    ensures
        succeeded ==> result is Ok,
        !succeeded ==> (result matches Err(ManagementError::ExitError(words)) && words@
            == status@),
{
    if succeeded {
        Ok(())
    } else {
        Err(ManagementError::ExitError(String::from_str(status)))
    }
}

/// The line that sets a password: the name, a colon, the password, and a
/// line feed.
pub open spec fn password_line_of(username: Seq<char>, password: Seq<char>) -> Seq<char> {
    username + ":"@ + password + "\n"@
}

/// Makes the line that is written to the tool that sets passwords.
pub fn password_line(username: &str, password: &str) -> (line: String)
    ensures
        line@ == password_line_of(username@, password@),
{
    String::from_str(username).concat(":").concat(password).concat("\n")
}

/// The texts of `texts` other than `text`, in order.
pub open spec fn others(texts: Seq<Seq<char>>, text: Seq<char>) -> Seq<Seq<char>>
    decreases texts.len(),
{
    if texts.len() == 0 {
        texts
    } else if texts.last() == text {
        others(texts.drop_last(), text)
    } else {
        others(texts.drop_last(), text).push(texts.last())
    }
}

/// The texts of `texts` one after the other, with a comma between each two.
pub open spec fn joined(texts: Seq<Seq<char>>) -> Seq<char>
    decreases texts.len(),
{
    if texts.len() == 0 {
        Seq::empty()
    } else if texts.len() == 1 {
        texts[0]
    } else {
        joined(texts.drop_last()) + ","@ + texts.last()
    }
}

/// The groups that an account is left with when it is taken out of `group`.
/// `listing` is what the system printed for the groups of the account: their
/// names, with white space between them. The result holds the names other
/// than `group`, in the same order, with commas between them.
pub fn remaining_groups(listing: &str, group: &str) -> (list: String)
    ensures
        list@ == joined(others(words_of(listing@), group@)),
{
    let names = words(listing);
    let mut list = String::new();
    let mut any = false;
    let mut i: usize = 0;
    while i < names.len()
        invariant
            i <= names.len(),
            any == (others(texts_view(names@).take(i as int), group@).len() > 0),
            list@ == joined(others(texts_view(names@).take(i as int), group@)),
        decreases names.len() - i,
    {
        proof {
            let upto = texts_view(names@).take(i + 1);
            assert(upto.drop_last() == texts_view(names@).take(i as int));
            assert(upto.last() == names@[i as int]@);
        }
        if !same_text(names[i].as_str(), group) {
            let ghost before = others(texts_view(names@).take(i as int), group@);
            proof {
                assert(before.push(names@[i as int]@).drop_last() == before);
            }
            if any {
                list.append(",");
            }
            list.append(names[i].as_str());
            proof {
                if before.len() == 0 {
                    assert(list@ == names@[i as int]@);
                }
            }
            any = true;
        }
        i = i + 1;
    }
    assert(texts_view(names@).take(i as int) == texts_view(names@));
    list
}

} // verus!
