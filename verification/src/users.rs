//! The accounts of the daemon's own user store.
//!
//! An account has a name, the hash of its password, a flag for
//! administrators and a storage quota. Reading and writing the store is the
//! business of the program around the library; what an account is, how its
//! password is set and how a login is judged is decided here.

use argon2::{PasswordHasher, PasswordVerifier};
use vstd::prelude::*;
use vstd::string::StringExecFns;
use crate::errors::describe_io;
use crate::text::{trim, trimmed};

verus! {

/// What can go wrong with an account.
#[derive(Debug)]
pub enum UserError {
    /// The store could not be read or written.
    IoError(std::io::Error),
    /// The password is not the one of the account.
    PasswordError,
    /// The store has no account of that name.
    UserNotFound,
    /// Anything else, in words.
    Other(String),
}

impl From<std::io::Error> for UserError {
    fn from(value: std::io::Error) -> (error: UserError) {
        UserError::IoError(value)
    }
}

impl vstd::std_specs::convert::FromSpecImpl<std::io::Error> for UserError {
    open spec fn obeys_from_spec() -> bool {
        true
    }

    open spec fn from_spec(value: std::io::Error) -> UserError {
        UserError::IoError(value)
    }
}

impl UserError {
    /// The status that a web server answers with on this error.
    pub open spec fn status_of(self) -> u16 {
        match self {
            UserError::IoError(_) => 500,
            UserError::PasswordError => 400,
            UserError::UserNotFound => 404,
            UserError::Other(_) => 500,
        }
    }

    /// The text that a web server answers with on this error.
    pub open spec fn body_of(self) -> Seq<char> {
        match self {
            UserError::IoError(_) => "IO Error"@,
            UserError::PasswordError => "Password Error"@,
            UserError::UserNotFound => "User Not Found"@,
            UserError::Other(words) => words@,
        }
    }

    /// The status that a web server answers with on this error.
    pub fn status(&self) -> (status: u16)
        ensures
            status == self.status_of(),
    {
        match self {
            UserError::IoError(_) => 500,
            UserError::PasswordError => 400,
            UserError::UserNotFound => 404,
            UserError::Other(_) => 500,
        }
    }

    /// The text that a web server answers with on this error.
    pub fn body(&self) -> (body: String)
        ensures
            body@ == self.body_of(),
    {
        match self {
            UserError::IoError(_) => String::from_str("IO Error"),
            UserError::PasswordError => String::from_str("Password Error"),
            UserError::UserNotFound => String::from_str("User Not Found"),
            UserError::Other(words) => words.clone(),
        }
    }

    /// The error in words, for a log or a terminal. An error of input or
    /// output reads `IO Error: ` and then what the system says of it.
    pub fn message(&self) -> (message: String)
        ensures
            match self {
                UserError::IoError(_) => "IO Error: "@.is_prefix_of(message@),
                UserError::PasswordError => message@ == "Password Error"@,
                UserError::UserNotFound => message@ == "User Not Found"@,
                UserError::Other(words) => message@ == words@,
            },
    {
        match self {
            UserError::IoError(error) => {
                let words = describe_io(error);
                String::from_str("IO Error: ").concat(words.as_str())
            },
            UserError::PasswordError => String::from_str("Password Error"),
            UserError::UserNotFound => String::from_str("User Not Found"),
            UserError::Other(words) => words.clone(),
        }
    }
}

/// The hash that Argon2id, with the parameters that the `argon2` crate
/// recommends, gives to a password under a salt, as a string in the PHC
/// format; `None` where the salt is not well formed or the hashing fails.
pub uninterp spec fn password_hash_of(password: Seq<char>, salt: Seq<char>) -> Option<Seq<char>>;

/// Whether a password is the one that a hash in the PHC format was made
/// from, as the `argon2` crate judges it. A text that is no such hash
/// matches no password.
pub uninterp spec fn password_verifies(password: Seq<char>, hash: Seq<char>) -> bool;

/// Makes a new random salt.
///
/// Calls `SaltString::generate` of the `password-hash` crate on the random
/// numbers of the operating system. The salt differs from call to call, so
/// nothing is claimed of it.
#[verifier::external_body]
fn fresh_salt() -> (salt: String) {
    argon2::password_hash::SaltString::generate(&mut argon2::password_hash::rand_core::OsRng)
        .as_str()
        .to_string()
}

/// Hashes a password under a salt.
///
/// Calls `SaltString::from_b64` and `Argon2::hash_password` of the `argon2`
/// crate, with its default parameters. The result is a function of the
/// password and the salt alone; the contract gives it its name and says
/// nothing more of it.
#[verifier::external_body]
fn hash_password(password: &str, salt: &str) -> (hash: Option<String>)
    ensures
        match hash {
            Some(hash) => password_hash_of(password@, salt@) == Some(hash@),
            None => password_hash_of(password@, salt@) is None,
        },
{
    let salt = argon2::password_hash::SaltString::from_b64(salt).ok()?;
    let hash = argon2::Argon2::default().hash_password(password.as_bytes(), &salt).ok()?;
    Some(hash.to_string())
}

/// Checks a password against a stored hash.
///
/// Calls `PasswordHashString::new` and `Argon2::verify_password` of the
/// `argon2` crate. The result is a function of the password and the hash
/// alone; the contract gives it its name and says nothing more of it.
#[verifier::external_body]
fn verify_password(password: &str, hash: &str) -> (matches: bool)
    ensures
        matches == password_verifies(password@, hash@),
{
    match argon2::password_hash::PasswordHashString::new(hash) {
        Ok(parsed) => argon2::Argon2::default().verify_password(
            password.as_bytes(),
            &parsed.password_hash(),
        ).is_ok(),
        Err(_) => false,
    }
}

/// An account as mathematical values.
pub struct UserView {
    pub name: Seq<char>,
    /// The hash of the password, never the password itself.
    pub password: Seq<char>,
    pub admin: bool,
    /// The storage that the account may use, in bytes.
    pub storage: usize,
}

/// An account of the daemon (which need not be an account of the system).
#[derive(Debug)]
pub struct User {
    name: String,
    password: String,
    admin: bool,
    storage: usize,
}

impl View for User {
    type V = UserView;

    closed spec fn view(&self) -> UserView {
        UserView {
            name: self.name@,
            password: self.password@,
            admin: self.admin,
            storage: self.storage,
        }
    }
}

/// The status that a web server answers with to an account that asks for a
/// page of the administrators and is none.
pub const FORBIDDEN: u16 = 403;

/// The storage of a new account: one gibibyte.
pub const DEFAULT_STORAGE: usize = 1073741824;

/// What is stored for a password under a salt: its hash, and the empty text
/// where it cannot be hashed.
pub open spec fn stored_hash(password: Seq<char>, salt: Seq<char>) -> Seq<char> {
    match password_hash_of(password, salt) {
        Some(hash) => hash,
        None => Seq::empty(),
    }
}

impl UserView {
    /// The account that is made for a name and a password under a salt.
    /// White space around the name and around the password does not count.
    pub open spec fn created(name: Seq<char>, password: Seq<char>, salt: Seq<char>) -> UserView {
        UserView {
            name: trimmed(name),
            password: stored_hash(trimmed(password), salt),
            admin: false,
            storage: DEFAULT_STORAGE,
        }
    }
}

impl UserView {
    /// The account with the password `password`, hashed under `salt`, and
    /// everything else as it is.
    pub open spec fn with_password(self, password: Seq<char>, salt: Seq<char>) -> UserView {
        UserView { password: stored_hash(password, salt), ..self }
    }
}

impl User {
    /// Makes an account for `name` with the password `password`, hashed
    /// under `salt`. The account is no administrator and has the storage of
    /// a new account.
    pub fn with_salt(name: &str, password: &str, salt: &str) -> (user: User)
        ensures
            user@ == UserView::created(name@, password@, salt@),
    {
        let password = trim(password);
        let hash = match hash_password(password.as_str(), salt) {
            Some(hash) => hash,
            None => String::new(),
        };
        User { name: trim(name), password: hash, admin: false, storage: DEFAULT_STORAGE }
    }

    /// Makes an account for `name` with the password `password`, hashed
    /// under a new random salt.
    pub fn new(name: &str, password: &str) -> (user: User)
        ensures
            exists|salt: Seq<char>| user@ == UserView::created(name@, password@, salt),
    {
        let salt = fresh_salt();
        let user = User::with_salt(name, password, salt.as_str());
        assert(user@ == UserView::created(name@, password@, salt@));
        user
    }

    /// Puts together an account from what the store holds of it.
    pub fn from_parts(name: String, password: String, admin: bool, storage: usize) -> (user: User)
        ensures
            user@ == (UserView { name: name@, password: password@, admin, storage }),
    {
        User { name, password, admin, storage }
    }

    #[inline]
    pub fn name(&self) -> (name: &str)
        ensures
            name@ == self@.name,
    {
        self.name.as_str()
    }

    /// The hash of the password, as the store keeps it.
    pub fn password_hash(&self) -> (hash: &str)
        ensures
            hash@ == self@.password,
    {
        self.password.as_str()
    }

    #[inline]
    pub fn admin(&self) -> (admin: bool)
        ensures
            admin == self@.admin,
    {
        self.admin
    }

    #[inline]
    pub fn storage(&self) -> (storage: usize)
        ensures
            storage == self@.storage,
    {
        self.storage
    }

    /// The flag for administrators, to be changed in place. Nothing else of
    /// the account changes.
    #[inline]
    pub fn admin_mut(&mut self) -> (admin: &mut bool)
        ensures
            *admin == old(self)@.admin,
            final(self)@ == (UserView { admin: *final(admin), ..old(self)@ }),
    {
        &mut self.admin
    }

    /// The storage quota, to be changed in place. Nothing else of the
    /// account changes.
    #[inline]
    pub fn storage_mut(&mut self) -> (storage: &mut usize)
        ensures
            *storage == old(self)@.storage,
            final(self)@ == (UserView { storage: *final(storage), ..old(self)@ }),
    {
        &mut self.storage
    }

    /// What stands between the account and the pages of the
    /// administrators: nothing for an administrator, and for any other
    /// account the status and the text of the refusal.
    pub fn refusal(&self) -> (refusal: Option<(u16, &'static str)>)
        ensures
            self@.admin ==> refusal is None,
            !self@.admin ==> refusal is Some && refusal->Some_0.0 == FORBIDDEN
                && refusal->Some_0.1@ == "Forbidden only system admins can access this page"@,
    {
        if self.admin {
            None
        } else {
            Some((FORBIDDEN, "Forbidden only system admins can access this page"))
        }
    }

    /// Whether `password` is the password of the account.
    pub fn accepts(&self, password: &str) -> (accepted: bool)
        ensures
            accepted == password_verifies(password@, self@.password),
    {
        verify_password(password, self.password.as_str())
    }

    /// Judges a login. `stored` is the account that the store holds under
    /// the name that was given, if it holds one. The login succeeds with
    /// that account if the password is its password; it fails with
    /// [`UserError::PasswordError`] if it is not, and with
    /// [`UserError::UserNotFound`] if there is no such account.
    pub fn login(stored: Option<User>, password: &str) -> (result: Result<User, UserError>)
        ensures
            match stored {
                None => result matches Err(UserError::UserNotFound),
                Some(user) => if password_verifies(password@, user@.password) {
                    result == Ok::<User, UserError>(user)
                } else {
                    result matches Err(UserError::PasswordError)
                },
            },
    {
        match stored {
            None => Err(UserError::UserNotFound),
            Some(user) => {
                if user.accepts(password) {
                    Ok(user)
                } else {
                    Err(UserError::PasswordError)
                }
            },
        }
    }

    /// The password that a form asks to set: what it holds without the white
    /// space around it, and none where nothing is left.
    pub fn password_wanted(field: &str) -> (password: Option<String>)
        ensures
            match password {
                Some(password) => password@ == trimmed(field@) && password@.len() > 0,
                None => trimmed(field@).len() == 0,
            },
    {
        let password = trim(field);
        if password.as_str().unicode_len() == 0 {
            None
        } else {
            Some(password)
        }
    }

    /// Gives the account the password `password`, hashed under `salt`.
    /// Nothing else of the account changes.
    pub fn set_password(&mut self, password: &str, salt: &str)
        ensures
            final(self)@ == old(self)@.with_password(password@, salt@),
    {
        self.password = match hash_password(password, salt) {
            Some(hash) => hash,
            None => String::new(),
        };
    }

    /// Gives the account a new password, hashed under a new random salt, and
    /// hands the password back. Nothing else of the account changes.
    pub fn change_password(&mut self, new_password: String) -> (password: String)
        ensures
            password == new_password,
            exists|salt: Seq<char>|
                final(self)@ == #[trigger] old(self)@.with_password(new_password@, salt),
    {
        let salt = fresh_salt();
        self.set_password(new_password.as_str(), salt.as_str());
        assert(self@ == old(self)@.with_password(new_password@, salt@));
        new_password
    }
}

} // verus!
