//! The settings of the daemon.

use vstd::prelude::*;
use vstd::string::StringExecFns;
use crate::text::{listed, lists};

verus! {

/// Below which percentages the daemon warns.
#[derive(Clone, Copy, Debug)]
pub struct Threasholds {
    /// Warn when the battery holds less than this.
    pub low_power: u8,
    /// Warn when less than this is free on the disks.
    pub low_storage: u8,
}

impl Default for Threasholds {
    fn default() -> (thresholds: Threasholds)
        ensures
            thresholds.low_power == 15,
            thresholds.low_storage == 15,
    {
        Threasholds { low_power: 15, low_storage: 15 }
    }
}

/// What the administrator can set.
#[derive(Debug)]
pub struct Settings {
    /// The port to listen on.
    pub port: u16,
    /// Where the certificate lies.
    pub cert_path: String,
    /// Where the private key lies.
    pub key_path: String,
    /// The address to listen on.
    pub hostname: String,
    /// Whether updates that can be had are passed over in silence.
    pub ignore_updates: bool,
    /// Below which percentages the daemon warns.
    pub threatsholds: Threasholds,
}

impl Default for Settings {
    fn default() -> (settings: Settings)
        ensures
            settings.port == 8080,
            settings.cert_path@ == "/etc/system_manager_server/cert.pem"@,
            settings.key_path@ == "/etc/system_manager_server/key.pem"@,
            settings.hostname@ == "0.0.0.0"@,
            !settings.ignore_updates,
            settings.threatsholds.low_power == 15,
            settings.threatsholds.low_storage == 15,
    {
        Settings {
            port: 8080,
            cert_path: String::from_str("/etc/system_manager_server/cert.pem"),
            key_path: String::from_str("/etc/system_manager_server/key.pem"),
            hostname: String::from_str("0.0.0.0"),
            ignore_updates: false,
            threatsholds: Threasholds { low_power: 15, low_storage: 15 },
        }
    }
}

impl Settings {
    /// Whether the daemon can serve over TLS: both the certificate and the
    /// private key are there. `existing` holds the paths of the files that
    /// were found on disk.
    pub fn secure(&self, existing: &Vec<String>) -> (secure: bool)
        ensures
            secure == (lists(existing@, self.cert_path@) && lists(existing@, self.key_path@)),
    {
        listed(existing, self.cert_path.as_str()) && listed(existing, self.key_path.as_str())
    }

    /// The settings that a form with these fields asks for.
    pub fn from_form(
        low_storage: u8,
        low_power: u8,
        ignore_update: bool,
        cert_path: String,
        key_path: String,
        hostname: String,
        port: u16,
    ) -> (settings: Settings)
        ensures
            settings.port == port,
            settings.cert_path == cert_path,
            settings.key_path == key_path,
            settings.hostname == hostname,
            settings.ignore_updates == ignore_update,
            settings.threatsholds.low_power == low_power,
            settings.threatsholds.low_storage == low_storage,
    {
        Settings {
            port,
            cert_path,
            key_path,
            hostname,
            ignore_updates: ignore_update,
            threatsholds: Threasholds { low_power, low_storage },
        }
    }
}

} // verus!
