//! Detection of the target application among the live processes, and the
//! search for its executable.

use vstd::prelude::*;
use vstd::string::*;
use crate::text::{contains_text, is_substring, lowercase, opt_view, same_text, to_lower};

verus! {

/// The platform whose conventions the controller follows.
#[derive(Debug, Clone, Copy, PartialEq, Eq, Structural)]
pub enum Platform {
    MacOs,
    Windows,
    Linux,
}

/// What the controller reads of one live process.
#[derive(Debug, Clone)]
pub struct ProcessInfo {
    pub pid: u32,
    /// The process name.
    pub name: String,
    /// The executable's path as text, where the process has one and it is
    /// valid Unicode. This is the text that the matching rules read.
    pub exe_text: Option<String>,
    /// The executable's path as it is handed back, where the process has one.
    /// The path is modelled as text: a path that is not valid Unicode is
    /// rendered with replacement characters, so it stands for the path but
    /// may not name it byte for byte.
    pub exe_path: Option<String>,
}

impl ProcessInfo {
    /// The text that the matching rules read in place of the executable's
    /// path: the path itself, or the empty text where none is known.
    pub open spec fn exe_text_or_empty(&self) -> Seq<char> {
        match self.exe_text {
            Some(text) => text@,
            None => Seq::empty(),
        }
    }

    /// The lower-cased text that the matching rules read in place of the
    /// executable's path.
    fn lowered_exe_text(&self) -> (lower: String)
        ensures
            lower@ == lowercase(self.exe_text_or_empty()),
    {
        match &self.exe_text {
            Some(text) => to_lower(text.as_str()),
            None => to_lower(String::new().as_str()),
        }
    }
}

/// `sysinfo::System`, the view of the machine that the process list is read
/// from. Nothing inside it is visible here.
#[verifier::external_type_specification]
#[verifier::external_body]
pub struct ExSystem(sysinfo::System);

/// `sysinfo::System::new`: a system view with nothing loaded yet.
#[verifier::external_body]
fn new_system() -> (system: sysinfo::System) {
    sysinfo::System::new()
}

/// `sysinfo::System::new_all`: a system view with everything loaded.
#[verifier::external_body]
fn new_full_system() -> (system: sysinfo::System) {
    sysinfo::System::new_all()
}

/// `sysinfo::System::refresh_processes` for all processes. What the list then
/// holds is the machine's business.
#[verifier::external_body]
fn refresh_processes(system: &mut sysinfo::System) {
    system.refresh_processes(sysinfo::ProcessesToUpdate::All);
}

/// `sysinfo::System::refresh_all`. What the view then holds is the machine's
/// business.
#[verifier::external_body]
fn refresh_all(system: &mut sysinfo::System) {
    system.refresh_all();
}

/// `sysinfo::System::processes`, each entry turned into a `ProcessInfo` through
/// `Pid::as_u32`, `Process::name` and `Process::exe`. The name and the path
/// handed back are rendered as text, lossily where they are not valid
/// Unicode. The map is walked in no particular order, so nothing is said of
/// the list.
#[verifier::external_body]
fn list_processes(system: &sysinfo::System) -> (processes: Vec<ProcessInfo>) {
    system.processes().iter().map(|(pid, process)| ProcessInfo {
        pid: pid.as_u32(),
        name: process.name().to_string_lossy().into_owned(),
        exe_text: process.exe().and_then(|exe| exe.to_str()).map(|text| text.to_string()),
        exe_path: process.exe().map(|exe| exe.to_string_lossy().into_owned()),
    }).collect()
}

/// Whether a process with this lower-cased name and executable path counts as
/// the target application being alive. Where the process list carries a
/// reliable name the name must match exactly, so that a helper living in a
/// directory of the same name is not mistaken for the application.
pub open spec fn target_process(platform: Platform, name_lower: Seq<char>, exe_lower: Seq<char>) -> bool {
    match platform {
        Platform::MacOs => is_substring("antigravity.app"@, exe_lower),
        Platform::Windows => name_lower == "antigravity.exe"@,
        Platform::Linux => name_lower == "antigravity"@ || is_substring("antigravity"@, exe_lower),
    }
}

/// Whether a process with this lower-cased name and executable path is taken
/// as evidence of where the target application is installed.
pub open spec fn target_executable(platform: Platform, name_lower: Seq<char>, exe_lower: Seq<char>) -> bool {
    match platform {
        Platform::MacOs => is_substring("antigravity.app"@, exe_lower),
        Platform::Windows => name_lower == "antigravity.exe"@,
        Platform::Linux => is_substring("antigravity"@, name_lower) || is_substring(
            "antigravity"@,
            exe_lower,
        ),
    }
}

/// Decides `target_process` on texts that are already lower-cased.
pub fn is_target_process(platform: Platform, name_lower: &str, exe_lower: &str) -> (hit: bool)
    ensures
        hit == target_process(platform, name_lower@, exe_lower@),
{
    match platform {
        Platform::MacOs => contains_text(exe_lower, "antigravity.app"),
        Platform::Windows => same_text(name_lower, "antigravity.exe"),
        Platform::Linux => same_text(name_lower, "antigravity") || contains_text(
            exe_lower,
            "antigravity",
        ),
    }
}

/// Decides `target_executable` on texts that are already lower-cased.
pub fn is_target_executable(platform: Platform, name_lower: &str, exe_lower: &str) -> (hit: bool)
    ensures
        hit == target_executable(platform, name_lower@, exe_lower@),
{
    match platform {
        Platform::MacOs => contains_text(exe_lower, "antigravity.app"),
        Platform::Windows => same_text(name_lower, "antigravity.exe"),
        Platform::Linux => contains_text(name_lower, "antigravity") || contains_text(
            exe_lower,
            "antigravity",
        ),
    }
}

/// Whether `p` shows the target application alive, seen from the process
/// `current_pid`, which never counts itself.
pub open spec fn counts_as_running(platform: Platform, p: ProcessInfo, current_pid: u32) -> bool {
    p.pid != current_pid && target_process(
        platform,
        lowercase(p.name@),
        lowercase(p.exe_text_or_empty()),
    )
}

/// Whether some process of the list shows the target application alive.
pub open spec fn target_among(platform: Platform, processes: Seq<ProcessInfo>, current_pid: u32) -> bool {
    exists|i: int|
        0 <= i < processes.len() && counts_as_running(platform, #[trigger] processes[i], current_pid)
}

/// Whether any process of the list shows the target application alive.
pub fn any_target_running(platform: Platform, processes: &Vec<ProcessInfo>, current_pid: u32) -> (running: bool)
    ensures
        running == target_among(platform, processes@, current_pid),
{
    let mut i: usize = 0;
    while i < processes.len()
        invariant
            i <= processes@.len(),
            forall|j: int| 0 <= j < i ==> !counts_as_running(platform, #[trigger] processes@[j], current_pid),
        decreases processes@.len() - i,
    {
        let p = &processes[i];
        if p.pid != current_pid {
            let name = to_lower(p.name.as_str());
            let exe = p.lowered_exe_text();
            if is_target_process(platform, name.as_str(), exe.as_str()) {
                return true;
            }
        }
        i += 1;
    }
    false
}

/// Whether the target application is alive right now, by a fresh look at the
/// process list. Which processes the look finds is the machine's business;
/// the answer is that of `target_among` on the list it found, whatever that
/// list is: the application is reported alive exactly when a process of the
/// list other than the caller matches the platform's rule.
pub fn is_antigravity_running(platform: Platform, current_pid: u32) -> (running: bool)
    ensures
        exists|processes: Seq<ProcessInfo>|
            running == #[trigger] target_among(platform, processes, current_pid),
{
    let mut system = new_system();
    refresh_processes(&mut system);
    let processes = list_processes(&system);
    let running = any_target_running(platform, &processes, current_pid);
    assert(running == target_among(platform, processes@, current_pid));
    running
}

/// Whether `p` tells where the target application is installed.
pub open spec fn reveals_executable(platform: Platform, p: ProcessInfo) -> bool {
    p.exe_path is Some && target_executable(
        platform,
        lowercase(p.name@),
        lowercase(p.exe_text_or_empty()),
    )
}

/// The index of the first process from `from` on that tells where the target
/// application is installed, or the list's length.
pub open spec fn first_revealing(platform: Platform, processes: Seq<ProcessInfo>, from: int) -> int
    decreases processes.len() - from,
{
    if from < 0 || from >= processes.len() {
        processes.len() as int
    } else if reveals_executable(platform, processes[from]) {
        from
    } else {
        first_revealing(platform, processes, from + 1)
    }
}

/// The executable path that the list reveals: that of its first revealing
/// process.
pub open spec fn revealed_path(platform: Platform, processes: Seq<ProcessInfo>) -> Option<Seq<char>> {
    let i = first_revealing(platform, processes, 0);
    if i < processes.len() {
        Some(processes[i].exe_path->Some_0@)
    } else {
        None
    }
}

/// The executable path of the first process of the list that is the target
/// application.
pub fn path_from_processes(platform: Platform, processes: &Vec<ProcessInfo>) -> (path: Option<String>)
    ensures
        opt_view(path) == revealed_path(platform, processes@),
{
    let mut i: usize = 0;
    while i < processes.len()
        invariant
            i <= processes@.len(),
            first_revealing(platform, processes@, 0) == first_revealing(platform, processes@, i as int),
        decreases processes@.len() - i,
    {
        let p = &processes[i];
        match &p.exe_path {
            Some(exe) => {
                let name = to_lower(p.name.as_str());
                let text = p.lowered_exe_text();
                if is_target_executable(platform, name.as_str(), text.as_str()) {
                    return Some(exe.clone());
                }
            },
            None => {},
        }
        i += 1;
    }
    None
}

/// The executable path of a running instance of the target application, by a
/// fresh look at the process list. Which processes the look finds is the
/// machine's business; the path is the one that the list reveals, whatever
/// that list is: the executable of its first process that matches the
/// platform's rule, and none where no process matches.
pub fn get_path_from_running_process(platform: Platform) -> (path: Option<String>)
    ensures
        exists|processes: Seq<ProcessInfo>|
            opt_view(path) == #[trigger] revealed_path(platform, processes),
{
    let mut system = new_full_system();
    refresh_all(&mut system);
    let processes = list_processes(&system);
    let path = path_from_processes(platform, &processes);
    assert(opt_view(path) == revealed_path(platform, processes@));
    path
}

} // verus!
