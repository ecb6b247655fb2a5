//! The state of the machine, as the home page and the status request show
//! it.

use vstd::prelude::*;
use crate::settings::Settings;

verus! {

/// The state of the machine in four answers.
#[derive(Clone, Copy, Debug)]
pub struct ServerStatus {
    pub online: bool,
    pub up_to_date: bool,
    pub low_storage: bool,
    pub low_power: bool,
}

/// The free share of the disks as the daemon reckons it: 100 less the
/// number of times that the free space goes into the whole space.
pub open spec fn storage_figure(total_space: u64, available_space: u64) -> int {
    100 - total_space as int / available_space as int
}

/// Reckons the free share of the disks from the sum of their sizes and the
/// sum of their free space. The free space must not be nothing, and must go
/// into the whole at most a hundred times.
pub fn check_storage(total_space: u64, available_space: u64) -> (free: u8)
    requires
        available_space > 0,
        total_space / available_space <= 100,
    ensures
        free == storage_figure(total_space, available_space),
{
    let times: u64 = total_space / available_space;
    let times: u8 = times as u8;
    100 - times
}

/// Whether a list of updates says that there is none: it holds one pair,
/// of two empty texts, and nothing else.
pub open spec fn says_no_updates(updates: Seq<(String, String)>) -> bool {
    updates.len() == 1 && updates[0].0@.len() == 0 && updates[0].1@.len() == 0
}

/// The state of the machine. `free_storage` is the free share of the disks
/// and `power` the charge of the battery, both in percent; where the charge
/// could not be read, `power` holds the reason, and the reason is the
/// answer. The machine counts as up to date where the settings say to pass
/// over updates, or the list of updates says that there is none.
pub fn get_status(
    settings: &Settings,
    free_storage: u8,
    power: Result<u8, String>,
    updates: &Vec<(String, String)>,
) -> (status: Result<ServerStatus, String>)
    ensures
        match power {
            Err(reason) => status == Err::<ServerStatus, String>(reason),
            Ok(charge) => status is Ok && status->Ok_0.online && status->Ok_0.up_to_date == (
            settings.ignore_updates || says_no_updates(updates@)) && status->Ok_0.low_storage == (
            free_storage < settings.threatsholds.low_storage) && status->Ok_0.low_power == (charge
                < settings.threatsholds.low_power),
        },
{
    let charge = match power {
        Ok(charge) => charge,
        Err(reason) => {
            return Err(reason);
        },
    };
    let mut up_to_date = true;
    if !settings.ignore_updates {
        up_to_date = updates.len() == 1 && updates[0].0.as_str().unicode_len() == 0
            && updates[0].1.as_str().unicode_len() == 0;
    }
    Ok(
        ServerStatus {
            online: true,
            up_to_date,
            low_storage: free_storage < settings.threatsholds.low_storage,
            low_power: charge < settings.threatsholds.low_power,
        },
    )
}

} // verus!
