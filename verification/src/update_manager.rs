//! Which package manager a machine has, what to ask it, and how to read its
//! answers.
//!
//! The program around the library looks for the programs on disk and runs the
//! commands; this module chooses among what was found and parses what the
//! commands printed.

use vstd::prelude::*;
use crate::text::{lines, lines_of, same_text, texts_view, words, words_of};

verus! {

/// The package managers that the daemon knows, in the order in which it
/// prefers them.
#[derive(Clone, Copy, Debug, PartialEq, Eq, Structural)]
pub enum PackageManager {
    Apt,
    Dnf,
    Yum,
    Zypper,
    Pacman,
}

impl PackageManager {
    /// The name of the package manager.
    pub open spec fn name_of(self) -> Seq<char> {
        match self {
            PackageManager::Apt => "apt"@,
            PackageManager::Dnf => "dnf"@,
            PackageManager::Yum => "yum"@,
            PackageManager::Zypper => "zypper"@,
            PackageManager::Pacman => "pacman"@,
        }
    }

    /// The file whose presence shows that the package manager is installed.
    pub open spec fn path_of(self) -> Seq<char> {
        match self {
            PackageManager::Apt => "/usr/bin/apt"@,
            PackageManager::Dnf => "/usr/bin/dnf"@,
            PackageManager::Yum => "/usr/bin/yum"@,
            PackageManager::Zypper => "/usr/bin/zypper"@,
            PackageManager::Pacman => "/usr/bin/pacman"@,
        }
    }

    /// The shell command that prints the installed packages, one name on
    /// each line.
    pub open spec fn installed_command_of(self) -> Seq<char> {
        match self {
            PackageManager::Apt => "dpkg --get-selections | awk '{print $1}'"@,
            PackageManager::Dnf => "dnf list installed | awk '{print $1}' | tail -n +2"@,
            PackageManager::Yum => "yum list installed | awk '{print $1}' | tail -n +2"@,
            PackageManager::Zypper => "zypper se --installed-only | awk '{print $2}'"@,
            PackageManager::Pacman => "pacman -Q | awk '{print $1}'"@,
        }
    }

    /// The shell command that prints the packages that can be updated, each
    /// on a line of its own with its new version behind it.
    pub open spec fn updates_command_of(self) -> Seq<char> {
        match self {
            PackageManager::Apt => "apt list --upgradable | awk -F'/' '{print $1, $2}' | tail -n +2"@,
            PackageManager::Dnf => "dnf check-update | awk '{print $1, $2}' | tail -n +2"@,
            PackageManager::Yum => "yum check-update | awk '{print $1, $2}' | tail -n +2"@,
            PackageManager::Zypper => "zypper list-updates | awk '{print $2, $3}'"@,
            PackageManager::Pacman => "pacman -Qu | awk '{print $1, $2}'"@,
        }
    }

    /// The shell command that installs all updates without asking.
    pub open spec fn upgrade_command_of(self) -> Seq<char> {
        match self {
            PackageManager::Apt => "apt update && apt upgrade -y"@,
            PackageManager::Dnf => "dnf upgrade -y"@,
            PackageManager::Yum => "yum update -y"@,
            PackageManager::Zypper => "zypper refresh && zypper update -y"@,
            PackageManager::Pacman => "pacman -Syu --noconfirm"@,
        }
    }

    /// The name of the package manager.
    pub fn name(&self) -> (name: &'static str)
        ensures
            name@ == self.name_of(),
    {
        match self {
            PackageManager::Apt => "apt",
            PackageManager::Dnf => "dnf",
            PackageManager::Yum => "yum",
            PackageManager::Zypper => "zypper",
            PackageManager::Pacman => "pacman",
        }
    }

    /// The file to look for on disk.
    pub fn path(&self) -> (path: &'static str)
        ensures
            path@ == self.path_of(),
    {
        match self {
            PackageManager::Apt => "/usr/bin/apt",
            PackageManager::Dnf => "/usr/bin/dnf",
            PackageManager::Yum => "/usr/bin/yum",
            PackageManager::Zypper => "/usr/bin/zypper",
            PackageManager::Pacman => "/usr/bin/pacman",
        }
    }

    /// The shell command that prints the installed packages.
    pub fn installed_command(&self) -> (command: &'static str)
        ensures
            command@ == self.installed_command_of(),
    {
        match self {
            PackageManager::Apt => "dpkg --get-selections | awk '{print $1}'",
            PackageManager::Dnf => "dnf list installed | awk '{print $1}' | tail -n +2",
            PackageManager::Yum => "yum list installed | awk '{print $1}' | tail -n +2",
            PackageManager::Zypper => "zypper se --installed-only | awk '{print $2}'",
            PackageManager::Pacman => "pacman -Q | awk '{print $1}'",
        }
    }

    /// The shell command that prints the packages that can be updated.
    pub fn updates_command(&self) -> (command: &'static str)
        ensures
            command@ == self.updates_command_of(),
    {
        match self {
            PackageManager::Apt => "apt list --upgradable | awk -F'/' '{print $1, $2}' | tail -n +2",
            PackageManager::Dnf => "dnf check-update | awk '{print $1, $2}' | tail -n +2",
            PackageManager::Yum => "yum check-update | awk '{print $1, $2}' | tail -n +2",
            PackageManager::Zypper => "zypper list-updates | awk '{print $2, $3}'",
            PackageManager::Pacman => "pacman -Qu | awk '{print $1, $2}'",
        }
    }

    /// The shell command that installs all updates.
    pub fn upgrade_command(&self) -> (command: &'static str)
        ensures
            command@ == self.upgrade_command_of(),
    {
        match self {
            PackageManager::Apt => "apt update && apt upgrade -y",
            PackageManager::Dnf => "dnf upgrade -y",
            PackageManager::Yum => "yum update -y",
            PackageManager::Zypper => "zypper refresh && zypper update -y",
            PackageManager::Pacman => "pacman -Syu --noconfirm",
        }
    }

    /// The package managers in the order in which the daemon prefers them.
    pub fn all() -> (all: Vec<PackageManager>)
        ensures
            all@ == seq![
                PackageManager::Apt,
                PackageManager::Dnf,
                PackageManager::Yum,
                PackageManager::Zypper,
                PackageManager::Pacman,
            ],
    {
        let mut all: Vec<PackageManager> = Vec::new();
        all.push(PackageManager::Apt);
        all.push(PackageManager::Dnf);
        all.push(PackageManager::Yum);
        all.push(PackageManager::Zypper);
        all.push(PackageManager::Pacman);
        assert(all@ =~= seq![
            PackageManager::Apt,
            PackageManager::Dnf,
            PackageManager::Yum,
            PackageManager::Zypper,
            PackageManager::Pacman,
        ]);
        all
    }

    /// The package manager of that name, if the daemon knows one.
    pub fn named(name: &str) -> (manager: Option<PackageManager>)
        ensures
            match manager {
                Some(manager) => manager.name_of() == name@,
                None => forall|manager: PackageManager| manager.name_of() != name@,
            },
    {
        if same_text(name, "apt") {
            Some(PackageManager::Apt)
        } else if same_text(name, "dnf") {
            Some(PackageManager::Dnf)
        } else if same_text(name, "yum") {
            Some(PackageManager::Yum)
        } else if same_text(name, "zypper") {
            Some(PackageManager::Zypper)
        } else if same_text(name, "pacman") {
            Some(PackageManager::Pacman)
        } else {
            None
        }
    }
}

/// The package manager that the daemon uses where those of `present` are
/// installed: the one it prefers most among them.
pub open spec fn preferred(present: Seq<PackageManager>) -> Option<PackageManager> {
    if present.contains(PackageManager::Apt) {
        Some(PackageManager::Apt)
    } else if present.contains(PackageManager::Dnf) {
        Some(PackageManager::Dnf)
    } else if present.contains(PackageManager::Yum) {
        Some(PackageManager::Yum)
    } else if present.contains(PackageManager::Zypper) {
        Some(PackageManager::Zypper)
    } else if present.contains(PackageManager::Pacman) {
        Some(PackageManager::Pacman)
    } else {
        None
    }
}

fn holds(present: &Vec<PackageManager>, manager: PackageManager) -> (found: bool)
    ensures
        found == present@.contains(manager),
{
    let mut i: usize = 0;
    while i < present.len()
        invariant
            i <= present.len(),
            forall|j: int| 0 <= j < i ==> present@[j] != manager,
        decreases present.len() - i,
    {
        if present[i] == manager {
            return true;
        }
        i = i + 1;
    }
    false
}

/// Chooses the package manager of the machine. `present` holds those whose
/// program was found on disk, in any order; the answer is the name of the
/// one that the daemon prefers most, and `None` where none was found.
pub fn detect_package_manager(present: &Vec<PackageManager>) -> (name: Option<&'static str>)
    ensures
        match preferred(present@) {
            Some(manager) => name is Some && name->Some_0@ == manager.name_of(),
            None => name is None,
        },
{
    let all = PackageManager::all();
    let mut i: usize = 0;
    while i < all.len()
        invariant
            i <= all.len(),
            all@ == seq![
                PackageManager::Apt,
                PackageManager::Dnf,
                PackageManager::Yum,
                PackageManager::Zypper,
                PackageManager::Pacman,
            ],
            forall|j: int| 0 <= j < i ==> !present@.contains(all@[j]),
        decreases all.len() - i,
    {
        if holds(present, all[i]) {
            return Some(all[i].name());
        }
        i = i + 1;
    }
    assert(!present@.contains(all@[0]) && !present@.contains(all@[1]) && !present@.contains(
        all@[2],
    ) && !present@.contains(all@[3]) && !present@.contains(all@[4]));
    None
}

/// Reads what the command for the installed packages printed: the names of
/// the packages are its lines.
pub fn list_installed_packages(output: &str) -> (packages: Vec<String>)
    ensures
        texts_view(packages@) == lines_of(output@),
{
    lines(output)
}

/// What a line of the command for the updates says: the package and its new
/// version are the first two words; a line with fewer words says nothing.
pub open spec fn update_of(line: Seq<char>) -> Option<(Seq<char>, Seq<char>)> {
    let words = words_of(line);
    if words.len() >= 2 {
        Some((words[0], words[1]))
    } else {
        None
    }
}

/// What the lines of the command for the updates say, in order.
pub open spec fn updates_of(lines: Seq<Seq<char>>) -> Seq<(Seq<char>, Seq<char>)>
    decreases lines.len(),
{
    if lines.len() == 0 {
        Seq::empty()
    } else {
        match update_of(lines.last()) {
            Some(update) => updates_of(lines.drop_last()).push(update),
            None => updates_of(lines.drop_last()),
        }
    }
}

/// The views of a list of pairs of texts.
pub open spec fn pairs_view(pairs: Seq<(String, String)>) -> Seq<(Seq<char>, Seq<char>)> {
    Seq::new(pairs.len(), |i: int| (pairs[i].0@, pairs[i].1@))
}

/// Reads what the command for the updates printed: for each line with at
/// least two words, the package and its new version.
pub fn check_updates(output: &str) -> (updates: Vec<(String, String)>)
    ensures
        pairs_view(updates@) == updates_of(lines_of(output@)),
{
    let all = lines(output);
    let mut updates: Vec<(String, String)> = Vec::new();
    let mut i: usize = 0;
    while i < all.len()
        invariant
            i <= all.len(),
            pairs_view(updates@) == updates_of(texts_view(all@).take(i as int)),
        decreases all.len() - i,
    {
        let mut found = words(all[i].as_str());
        proof {
            let upto = texts_view(all@).take(i + 1);
            assert(upto.drop_last() == texts_view(all@).take(i as int));
            assert(upto.last() == all@[i as int]@);
            assert(texts_view(found@).len() == found@.len());
        }
        if found.len() >= 2 {
            assert(texts_view(found@)[0] == found@[0]@);
            assert(texts_view(found@)[1] == found@[1]@);
            let version = found.swap_remove(1);
            let package = found.swap_remove(0);
            let ghost before = pairs_view(updates@);
            updates.push((package, version));
            assert(pairs_view(updates@) == before.push((package@, version@)));
        }
        i = i + 1;
    }
    assert(texts_view(all@).take(i as int) == texts_view(all@));
    updates
}

} // verus!
