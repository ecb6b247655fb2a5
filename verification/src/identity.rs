//! The target account of a session.

use vstd::prelude::*;

verus! {

/// What an [`Identity`] is, as mathematical values.
pub struct IdentityView {
    pub uid: u32,
    pub primary_gid: u32,
    pub supplementary_gids: Seq<u32>,
    pub home: Seq<char>,
    pub shell: Seq<char>,
}

/// A resolved system account: numeric ids, home directory and login shell.
///
/// An identity is made once, from what the user database returned, and is
/// never changed afterwards: it has no mutating method.
#[derive(Debug)]
pub struct Identity {
    uid: u32,
    primary_gid: u32,
    supplementary_gids: Vec<u32>,
    home: String,
    shell: String,
}

impl View for Identity {
    type V = IdentityView;

    closed spec fn view(&self) -> IdentityView {
        IdentityView {
            uid: self.uid,
            primary_gid: self.primary_gid,
            supplementary_gids: self.supplementary_gids@,
            home: self.home@,
            shell: self.shell@,
        }
    }
}

impl Identity {
    /// Records an account as the user database gave it.
    pub fn new(
        uid: u32,
        primary_gid: u32,
        supplementary_gids: Vec<u32>,
        home: String,
        shell: String,
    ) -> (identity: Identity)
        ensures
            identity@ == (IdentityView {
                uid,
                primary_gid,
                supplementary_gids: supplementary_gids@,
                home: home@,
                shell: shell@,
            }),
    {
        Identity { uid, primary_gid, supplementary_gids, home, shell }
    }

    /// The numeric user id.
    pub fn uid(&self) -> (uid: u32)
        ensures
            uid == self@.uid,
    {
        self.uid
    }

    /// The primary group id.
    pub fn primary_gid(&self) -> (gid: u32)
        ensures
            gid == self@.primary_gid,
    {
        self.primary_gid
    }

    /// The supplementary group ids, in the order in which they were resolved.
    pub fn supplementary_gids(&self) -> (gids: &Vec<u32>)
        ensures
            gids@ == self@.supplementary_gids,
    {
        &self.supplementary_gids
    }

    /// The path of the home directory.
    pub fn home(&self) -> (home: &String)
        ensures
            home@ == self@.home,
    {
        &self.home
    }

    /// The path of the login shell.
    pub fn shell(&self) -> (shell: &String)
        ensures
            shell@ == self@.shell,
    {
        &self.shell
    }
}

} // verus!
