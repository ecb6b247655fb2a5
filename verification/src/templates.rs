//! What the pages of the web interface show.
//!
//! Each type holds the values of one page. Turning them into markup is left
//! to the program around the library.

use vstd::prelude::*;
use vstd::string::StringExecFns;
use crate::settings::{Settings, Threasholds};
use crate::text::{texts_view, trim, trimmed};
use crate::users::User;

verus! {

/// The login page.
#[derive(Debug)]
pub struct IndexTemplate {
    /// Whether the last login failed.
    pub error: bool,
}

/// The home page.
#[derive(Debug)]
pub struct HomeTemplate {
    pub username: String,
    pub low_power: bool,
    pub low_storage: bool,
    pub updates_available: bool,
    pub restart_pending: bool,
    pub is_admin: bool,
}

/// The page of the settings.
#[derive(Debug)]
pub struct SettingsTemplate {
    pub low_storage: u8,
    pub low_power: u8,
    pub ignore_update: bool,
    pub cert_path: String,
    pub key_path: String,
    pub port: u16,
    pub hostname: String,
}

/// The page that lists the accounts.
#[derive(Debug)]
pub struct ManageTemplate {
    pub users: Vec<String>,
}

/// The page of one account.
#[derive(Debug)]
pub struct UserSettingsTemplate {
    pub storage: usize,
    pub admin: bool,
    pub user: String,
}

/// The page that lists the groups that an account may manage.
#[derive(Debug)]
pub struct ManagementTemplate {
    pub groups: Vec<String>,
}

/// What a login form holds.
#[derive(Debug)]
pub struct LoginForm {
    pub username: String,
    pub password: String,
}

impl LoginForm {
    /// The name and the password without the white space around them.
    pub fn credentials(&self) -> (credentials: (String, String))
        ensures
            credentials.0@ == trimmed(self.username@),
            credentials.1@ == trimmed(self.password@),
    {
        (trim(self.username.as_str()), trim(self.password.as_str()))
    }
}

impl HomeTemplate {
    /// The home page of `user`. `power` is the charge of the battery in
    /// percent, where it could be read, and `free_storage` the free share of
    /// the disks in percent. The page warns of low power only where the
    /// charge is known and below the threshold.
    pub fn build(
        user: &User,
        thresholds: &Threasholds,
        power: Option<u8>,
        free_storage: u8,
        restart_pending: bool,
    ) -> (page: HomeTemplate)
        ensures
            page.username@ == user@.name,
            page.low_power == (power is Some && power->Some_0 < thresholds.low_power),
            page.low_storage == (free_storage < thresholds.low_storage),
            !page.updates_available,
            page.restart_pending == restart_pending,
            page.is_admin == user@.admin,
    {
        let low_power = match power {
            Some(value) => value < thresholds.low_power,
            None => false,
        };
        HomeTemplate {
            username: String::from_str(user.name()),
            low_power,
            low_storage: free_storage < thresholds.low_storage,
            updates_available: false,
            restart_pending,
            is_admin: user.admin(),
        }
    }
}

impl From<Settings> for SettingsTemplate {
    fn from(value: Settings) -> (page: SettingsTemplate) {
        SettingsTemplate {
            low_storage: value.threatsholds.low_storage,
            low_power: value.threatsholds.low_power,
            ignore_update: value.ignore_updates,
            cert_path: value.cert_path,
            key_path: value.key_path,
            port: value.port,
            hostname: value.hostname,
        }
    }
}

impl vstd::std_specs::convert::FromSpecImpl<Settings> for SettingsTemplate {
    open spec fn obeys_from_spec() -> bool {
        true
    }

    open spec fn from_spec(value: Settings) -> SettingsTemplate {
        SettingsTemplate {
            low_storage: value.threatsholds.low_storage,
            low_power: value.threatsholds.low_power,
            ignore_update: value.ignore_updates,
            cert_path: value.cert_path,
            key_path: value.key_path,
            port: value.port,
            hostname: value.hostname,
        }
    }
}

/// The names of `users`, in order.
pub open spec fn names_of(users: Seq<User>) -> Seq<Seq<char>> {
    Seq::new(users.len(), |i: int| users[i]@.name)
}

impl ManageTemplate {
    /// The page that lists `users` by their names.
    pub fn build(users: &Vec<User>) -> (page: ManageTemplate)
        ensures
            texts_view(page.users@) == names_of(users@),
    {
        let mut names: Vec<String> = Vec::new();
        let mut i: usize = 0;
        while i < users.len()
            invariant
                i <= users.len(),
                texts_view(names@) == names_of(users@.take(i as int)),
            decreases users.len() - i,
        {
            let ghost before = texts_view(names@);
            names.push(String::from_str(users[i].name()));
            assert(texts_view(names@) =~= before.push(users@[i as int]@.name));
            assert(names_of(users@.take(i + 1)) =~= names_of(users@.take(i as int)).push(
                users@[i as int]@.name,
            ));
            i = i + 1;
        }
        assert(users@.take(i as int) == users@);
        ManageTemplate { users: names }
    }
}

impl UserSettingsTemplate {
    /// The page of the account `user`, which was asked for as `username`.
    pub fn build(user: &User, username: &str) -> (page: UserSettingsTemplate)
        ensures
            page.storage == user@.storage,
            page.admin == user@.admin,
            page.user@ == username@,
    {
        UserSettingsTemplate {
            storage: user.storage(),
            admin: user.admin(),
            user: String::from_str(username),
        }
    }
}

/// The groups of `groups` whose flag in `leads` is set, in order.
pub open spec fn led_groups(groups: Seq<Seq<char>>, leads: Seq<bool>) -> Seq<Seq<char>>
    decreases groups.len(),
{
    if groups.len() == 0 {
        Seq::empty()
    } else if groups.len() <= leads.len() && leads[groups.len() - 1] {
        led_groups(groups.drop_last(), leads).push(groups.last())
    } else {
        led_groups(groups.drop_last(), leads)
    }
}

impl ManagementTemplate {
    /// The page of an administrator: all the groups of the system, and
    /// behind them the entry `all`.
    pub fn for_administrator(groups: Vec<String>) -> (page: ManagementTemplate)
        ensures
            texts_view(page.groups@) == texts_view(groups@).push("all"@),
    {
        let mut groups = groups;
        let ghost before = texts_view(groups@);
        groups.push(String::from_str("all"));
        assert(texts_view(groups@) =~= before.push("all"@));
        ManagementTemplate { groups }
    }

    /// The page of an account that is no administrator: those of its groups
    /// that it leads. `leads[i]` says whether it leads `groups[i]`; a group
    /// without a flag is not led.
    pub fn for_leader(groups: &Vec<String>, leads: &Vec<bool>) -> (page: ManagementTemplate)
        ensures
            texts_view(page.groups@) == led_groups(texts_view(groups@), leads@),
    {
        let mut names: Vec<String> = Vec::new();
        let mut i: usize = 0;
        while i < groups.len()
            invariant
                i <= groups.len(),
                texts_view(names@) == led_groups(texts_view(groups@).take(i as int), leads@),
            decreases groups.len() - i,
        {
            proof {
                let upto = texts_view(groups@).take(i + 1);
                assert(upto.drop_last() == texts_view(groups@).take(i as int));
                assert(upto.last() == groups@[i as int]@);
            }
            if i < leads.len() && leads[i] {
                let ghost before = texts_view(names@);
                names.push(groups[i].clone());
                assert(texts_view(names@) =~= before.push(groups@[i as int]@));
            }
            i = i + 1;
        }
        assert(texts_view(groups@).take(i as int) == texts_view(groups@));
        ManagementTemplate { groups: names }
    }
}

} // verus!
