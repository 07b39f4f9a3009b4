//! Where the target application's executable may be found: a running
//! instance first, then the conventional install locations in order.

use vstd::prelude::*;
use vstd::string::*;
use crate::process::{get_path_from_running_process, Platform};
use crate::text::{opt_view, texts};

verus! {

/// Directories that the operating system reports and from which install
/// locations are derived. A missing entry falls back to the platform's usual
/// place, or drops the location that hangs on it.
#[derive(Debug, Clone)]
pub struct InstallRoots {
    /// The per-user application-data directory.
    pub local_appdata: Option<String>,
    /// The system-wide program directory.
    pub program_files: Option<String>,
    /// The program directory for the compatibility architecture.
    pub program_files_x86: Option<String>,
}

/// The directory to use where one may be missing.
pub open spec fn root_or(dir: Option<String>, fallback: Seq<char>) -> Seq<char> {
    match dir {
        Some(d) => d@,
        None => fallback,
    }
}

/// The install locations to probe on Windows, in order: per user, system wide,
/// compatibility architecture.
pub open spec fn windows_locations(roots: InstallRoots) -> Seq<Seq<char>> {
    let system = seq![
        root_or(roots.program_files, "C:\\Program Files"@) + "\\Antigravity\\Antigravity.exe"@,
        root_or(roots.program_files_x86, "C:\\Program Files (x86)"@)
            + "\\Antigravity\\Antigravity.exe"@,
    ];
    match roots.local_appdata {
        Some(local) => seq![local@ + "\\Programs\\Antigravity\\Antigravity.exe"@] + system,
        None => system,
    }
}

/// The install locations to probe on Linux, in order: the system-wide places,
/// then the user's own bin directory where a home directory is known.
pub open spec fn linux_locations(home: Option<Seq<char>>) -> Seq<Seq<char>> {
    let system = seq![
        "/usr/bin/antigravity"@,
        "/opt/Antigravity/antigravity"@,
        "/usr/share/antigravity/antigravity"@,
    ];
    match home {
        Some(h) => system + seq![h + "/.local/bin/antigravity"@],
        None => system,
    }
}

/// The install locations to probe on a platform, in order.
pub open spec fn install_locations(platform: Platform, roots: InstallRoots, home: Option<Seq<char>>) -> Seq<Seq<char>> {
    match platform {
        Platform::MacOs => seq!["/Applications/Antigravity.app"@],
        Platform::Windows => windows_locations(roots),
        Platform::Linux => linux_locations(home),
    }
}

/// The user's home directory as `dirs::home_dir` reports it, as text. It
/// comes from the environment and the user database, so nothing is said of
/// it.
#[verifier::external_body]
fn home_directory() -> (home: Option<String>) {
    dirs::home_dir().map(|p| p.to_string_lossy().into_owned())
}

/// `dir` followed by `rest`, or `fallback` followed by `rest` where `dir` is
/// missing.
fn under(dir: &Option<String>, fallback: &str, rest: &str) -> (path: String)
    ensures
        path@ == root_or(*dir, fallback@) + rest@,
{
    let base = match dir {
        Some(d) => d.clone(),
        None => String::from_str(fallback),
    };
    base.concat(rest)
}

/// The install locations to probe, in order, for a known home directory.
pub fn candidate_locations(platform: Platform, roots: &InstallRoots, home: &Option<String>) -> (list: Vec<String>)
    ensures
        texts(list@) == install_locations(platform, *roots, opt_view(*home)),
{
    let mut list: Vec<String> = Vec::new();
    match platform {
        Platform::MacOs => {
            list.push(String::from_str("/Applications/Antigravity.app"));
        },
        Platform::Windows => {
            match &roots.local_appdata {
                Some(local) => {
                    list.push(local.clone().concat("\\Programs\\Antigravity\\Antigravity.exe"));
                },
                None => {},
            }
            list.push(under(&roots.program_files, "C:\\Program Files", "\\Antigravity\\Antigravity.exe"));
            list.push(
                under(
                    &roots.program_files_x86,
                    "C:\\Program Files (x86)",
                    "\\Antigravity\\Antigravity.exe",
                ),
            );
        },
        Platform::Linux => {
            list.push(String::from_str("/usr/bin/antigravity"));
            list.push(String::from_str("/opt/Antigravity/antigravity"));
            list.push(String::from_str("/usr/share/antigravity/antigravity"));
            match home {
                Some(h) => {
                    list.push(h.clone().concat("/.local/bin/antigravity"));
                },
                None => {},
            }
        },
    }
    assert(texts(list@) =~= install_locations(platform, *roots, opt_view(*home)));
    list
}

/// The install locations to probe on this machine, in order. On Linux the
/// home directory is looked up; elsewhere it plays no part.
pub fn standard_locations(platform: Platform, roots: &InstallRoots) -> (list: Vec<String>)
    ensures
        platform != Platform::Linux ==> texts(list@) == install_locations(platform, *roots, None),
        platform == Platform::Linux ==> exists|home: Option<Seq<char>>|
            texts(list@) == #[trigger] linux_locations(home),
{
    match platform {
        Platform::Linux => {
            let home = home_directory();
            let list = candidate_locations(platform, roots, &home);
            assert(texts(list@) == linux_locations(opt_view(home)));
            list
        },
        _ => {
            let list = candidate_locations(platform, roots, &None);
            list
        },
    }
}

/// Whether the probe found location `i` to exist. A location without a probe
/// result counts as absent.
pub open spec fn present_at(present: Seq<bool>, i: int) -> bool {
    0 <= i < present.len() && present[i]
}

/// The index of the first location from `from` on that exists, or the number
/// of locations.
pub open spec fn first_present(count: int, present: Seq<bool>, from: int) -> int
    decreases count - from,
{
    if from < 0 || from >= count {
        count
    } else if present_at(present, from) {
        from
    } else {
        first_present(count, present, from + 1)
    }
}

/// The first location that exists.
pub open spec fn first_existing_location(locations: Seq<Seq<char>>, present: Seq<bool>) -> Option<Seq<char>> {
    let i = first_present(locations.len() as int, present, 0);
    if i < locations.len() {
        Some(locations[i])
    } else {
        None
    }
}

/// What `first_present` returns: an index at which the location exists and
/// before which none does, or the count where none exists at all.
pub proof fn first_present_is_first(count: int, present: Seq<bool>, from: int)
    requires
        0 <= from <= count,
    ensures
        from <= first_present(count, present, from) <= count,
        first_present(count, present, from) < count ==> present_at(
            present,
            first_present(count, present, from),
        ),
        forall|j: int| from <= j < first_present(count, present, from) ==> !present_at(present, j),
    decreases count - from,
{
    if from < count && !present_at(present, from) {
        first_present_is_first(count, present, from + 1);
    }
}

/// Picks the first location that the probe found to exist.
pub fn check_standard_locations(locations: &Vec<String>, present: &Vec<bool>) -> (path: Option<String>)
    ensures
        opt_view(path) == first_existing_location(texts(locations@), present@),
{
    let mut i: usize = 0;
    while i < locations.len()
        invariant
            i <= locations@.len(),
            first_present(locations@.len() as int, present@, 0) == first_present(
                locations@.len() as int,
                present@,
                i as int,
            ),
        decreases locations@.len() - i,
    {
        if i < present.len() && present[i] {
            return Some(locations[i].clone());
        }
        i += 1;
    }
    None
}

/// The executable's path: that of a running instance where one is given,
/// else the first install location that exists.
pub open spec fn located(running: Option<Seq<char>>, locations: Seq<Seq<char>>, present: Seq<bool>) -> Option<Seq<char>> {
    match running {
        Some(p) => Some(p),
        None => first_existing_location(locations, present),
    }
}

/// Settles the executable's path from what a look at the processes and a
/// probe of the install locations gave.
pub fn resolve_executable_path(running: Option<String>, locations: &Vec<String>, present: &Vec<bool>) -> (path: Option<String>)
    ensures
        opt_view(path) == located(opt_view(running), texts(locations@), present@),
{
    match running {
        Some(p) => Some(p),
        None => check_standard_locations(locations, present),
    }
}

/// The executable's path, looking at the live processes first. A running
/// instance is ground truth wherever it was installed; what the look finds is
/// the machine's business, so the contract says what holds either way: no path
/// comes back only if no probed location exists, and a path that is not the
/// first existing location was taken from a process.
pub fn get_antigravity_executable_path(platform: Platform, locations: &Vec<String>, present: &Vec<bool>) -> (path: Option<String>)
    ensures
        path is None ==> first_existing_location(texts(locations@), present@) is None,
        exists|running: Option<Seq<char>>|
            opt_view(path) == #[trigger] located(running, texts(locations@), present@),
{
    let running = get_path_from_running_process(platform);
    let path = resolve_executable_path(running, locations, present);
    assert(opt_view(path) == located(opt_view(running), texts(locations@), present@));
    path
}

} // verus!
