//! Stopping and starting the target application: what to run, how long to
//! wait, and when to give up. The caller runs the commands and sleeps; every
//! decision is taken here.

use vstd::prelude::*;
use vstd::string::*;
use crate::text::texts;
use crate::process::{is_antigravity_running, Platform};

verus! {

/// Milliseconds between two looks at the process list while waiting for the
/// application to exit.
pub const POLL_INTERVAL_MS: u64 = 500;

/// Milliseconds granted to the forceful kill before the last look.
pub const GRACE_MS: u64 = 1000;

/// Milliseconds granted to the system to clear up after the first kill.
pub const SETTLE_MS: u64 = 200;

/// A command of the operating system that acts on the target application.
#[derive(Debug, Clone, Copy, PartialEq, Eq, Structural)]
pub enum ControlCommand {
    /// Ask the application to quit: `osascript -e 'tell application "Antigravity" to quit'`.
    QuitRequest,
    /// Kill by image name: `taskkill /F /IM Antigravity.exe`.
    TaskKill,
    /// Kill by name: `pkill -9 Antigravity`.
    KillByAppName,
    /// Kill by name: `pkill -9 antigravity`.
    KillByProcessName,
    /// Ask the process to exit, by name: `pkill -TERM antigravity`.
    TerminateByProcessName,
    /// Launch through the opener and wait for it: `open -a Antigravity`.
    OpenApplication,
    /// Launch through the URL scheme: `cmd /C start antigravity://`.
    OpenScheme,
    /// Launch the executable: `antigravity`.
    SpawnExecutable,
}

/// A command as the operating system takes it: the program and its
/// arguments.
#[derive(Debug, Clone)]
pub struct CommandLine {
    pub program: String,
    pub args: Vec<String>,
}

/// The program that a command runs.
pub open spec fn program_of(command: ControlCommand) -> Seq<char> {
    match command {
        ControlCommand::QuitRequest => "osascript"@,
        ControlCommand::TaskKill => "taskkill"@,
        ControlCommand::KillByAppName => "pkill"@,
        ControlCommand::KillByProcessName => "pkill"@,
        ControlCommand::TerminateByProcessName => "pkill"@,
        ControlCommand::OpenApplication => "open"@,
        ControlCommand::OpenScheme => "cmd"@,
        ControlCommand::SpawnExecutable => "antigravity"@,
    }
}

/// The arguments that a command hands to its program.
pub open spec fn arguments_of(command: ControlCommand) -> Seq<Seq<char>> {
    match command {
        ControlCommand::QuitRequest => seq!["-e"@, "tell application \"Antigravity\" to quit"@],
        ControlCommand::TaskKill => seq!["/F"@, "/IM"@, "Antigravity.exe"@],
        ControlCommand::KillByAppName => seq!["-9"@, "Antigravity"@],
        ControlCommand::KillByProcessName => seq!["-9"@, "antigravity"@],
        ControlCommand::TerminateByProcessName => seq!["-TERM"@, "antigravity"@],
        ControlCommand::OpenApplication => seq!["-a"@, "Antigravity"@],
        ControlCommand::OpenScheme => seq!["/C"@, "start"@, "antigravity://"@],
        ControlCommand::SpawnExecutable => Seq::empty(),
    }
}

/// Spells a command out as a program and its arguments.
pub fn command_line(command: ControlCommand) -> (line: CommandLine)
    ensures
        line.program@ == program_of(command),
        texts(line.args@) == arguments_of(command),
{
    let mut args: Vec<String> = Vec::new();
    let program = match command {
        ControlCommand::QuitRequest => {
            args.push(String::from_str("-e"));
            args.push(String::from_str("tell application \"Antigravity\" to quit"));
            String::from_str("osascript")
        },
        ControlCommand::TaskKill => {
            args.push(String::from_str("/F"));
            args.push(String::from_str("/IM"));
            args.push(String::from_str("Antigravity.exe"));
            String::from_str("taskkill")
        },
        ControlCommand::KillByAppName => {
            args.push(String::from_str("-9"));
            args.push(String::from_str("Antigravity"));
            String::from_str("pkill")
        },
        ControlCommand::KillByProcessName => {
            args.push(String::from_str("-9"));
            args.push(String::from_str("antigravity"));
            String::from_str("pkill")
        },
        ControlCommand::TerminateByProcessName => {
            args.push(String::from_str("-TERM"));
            args.push(String::from_str("antigravity"));
            String::from_str("pkill")
        },
        ControlCommand::OpenApplication => {
            args.push(String::from_str("-a"));
            args.push(String::from_str("Antigravity"));
            String::from_str("open")
        },
        ControlCommand::OpenScheme => {
            args.push(String::from_str("/C"));
            args.push(String::from_str("start"));
            args.push(String::from_str("antigravity://"));
            String::from_str("cmd")
        },
        ControlCommand::SpawnExecutable => String::from_str("antigravity"),
    };
    assert(texts(args@) =~= arguments_of(command));
    CommandLine { program, args }
}

/// Where a stop stands.
#[derive(Debug, Clone, Copy, PartialEq, Eq, Structural)]
pub enum StopState {
    /// Nothing has been done yet.
    Requested,
    /// The first kill has been issued and the system is given a moment.
    Settling,
    /// The first termination step is over; the wait is about to begin.
    Ready,
    /// Waiting for the application to exit, looking at intervals.
    Polling,
    /// The wait ran out and the forceful kill has been issued.
    Escalated,
    /// The grace period is over; one last look decides.
    LastLook,
    /// The application is gone.
    Stopped,
    /// The application outlived the forceful kill.
    TimedOut,
}

/// What the caller does next.
#[derive(Debug, Clone, Copy, PartialEq, Eq, Structural)]
pub enum StopAction {
    /// Run the command, ignoring its outcome, and come back.
    Run(ControlCommand),
    /// Sleep for so many milliseconds and come back.
    Sleep(u64),
    /// Start measuring the wait from now and come back.
    StartClock,
    /// Report that the application is stopped.
    Succeed,
    /// Report that the application could not be stopped in time.
    Fail,
}

/// One step of a stop: the state it leads to and what the caller does.
#[derive(Debug, Clone, Copy, PartialEq, Eq, Structural)]
pub struct StopStep {
    pub next: StopState,
    pub action: StopAction,
}

/// The forceful kill of a platform.
pub open spec fn force_kill(platform: Platform) -> ControlCommand {
    match platform {
        Platform::MacOs => ControlCommand::KillByAppName,
        Platform::Windows => ControlCommand::TaskKill,
        Platform::Linux => ControlCommand::KillByProcessName,
    }
}

/// Whether the wait is still within the timeout.
pub open spec fn within_timeout(timeout_secs: u64, elapsed_ms: u64) -> bool {
    elapsed_ms < timeout_secs * 1000
}

/// The step that follows from a state, given how long the wait has lasted
/// and whether the application was seen alive. The last two are read only
/// while polling and at the last look.
pub open spec fn stop_transition(
    state: StopState,
    platform: Platform,
    timeout_secs: u64,
    elapsed_ms: u64,
    running: bool,
) -> StopStep {
    match state {
        StopState::Requested => match platform {
            Platform::Windows => StopStep {
                next: StopState::Settling,
                action: StopAction::Run(ControlCommand::TaskKill),
            },
            Platform::MacOs => StopStep {
                next: StopState::Ready,
                action: StopAction::Run(ControlCommand::QuitRequest),
            },
            Platform::Linux => StopStep {
                next: StopState::Ready,
                action: StopAction::Run(ControlCommand::TerminateByProcessName),
            },
        },
        StopState::Settling => StopStep { next: StopState::Ready, action: StopAction::Sleep(SETTLE_MS) },
        StopState::Ready => StopStep { next: StopState::Polling, action: StopAction::StartClock },
        StopState::Polling => if !running {
            StopStep { next: StopState::Stopped, action: StopAction::Succeed }
        } else if within_timeout(timeout_secs, elapsed_ms) {
            StopStep { next: StopState::Polling, action: StopAction::Sleep(POLL_INTERVAL_MS) }
        } else {
            StopStep { next: StopState::Escalated, action: StopAction::Run(force_kill(platform)) }
        },
        StopState::Escalated => StopStep { next: StopState::LastLook, action: StopAction::Sleep(GRACE_MS) },
        StopState::LastLook => if running {
            StopStep { next: StopState::TimedOut, action: StopAction::Fail }
        } else {
            StopStep { next: StopState::Stopped, action: StopAction::Succeed }
        },
        StopState::Stopped => StopStep { next: StopState::Stopped, action: StopAction::Succeed },
        StopState::TimedOut => StopStep { next: StopState::TimedOut, action: StopAction::Fail },
    }
}

/// Whether a step from this state looks at the process list.
pub open spec fn looks_at_processes(state: StopState) -> bool {
    state == StopState::Polling || state == StopState::LastLook
}

/// Takes one step of a stop from what was observed.
pub fn stop_decide(
    state: StopState,
    platform: Platform,
    timeout_secs: u64,
    elapsed_ms: u64,
    running: bool,
) -> (step: StopStep)
    ensures
        step == stop_transition(state, platform, timeout_secs, elapsed_ms, running),
{
    match state {
        StopState::Requested => match platform {
            Platform::Windows => StopStep {
                next: StopState::Settling,
                action: StopAction::Run(ControlCommand::TaskKill),
            },
            Platform::MacOs => StopStep {
                next: StopState::Ready,
                action: StopAction::Run(ControlCommand::QuitRequest),
            },
            Platform::Linux => StopStep {
                next: StopState::Ready,
                action: StopAction::Run(ControlCommand::TerminateByProcessName),
            },
        },
        StopState::Settling => StopStep { next: StopState::Ready, action: StopAction::Sleep(SETTLE_MS) },
        StopState::Ready => StopStep { next: StopState::Polling, action: StopAction::StartClock },
        StopState::Polling => {
            if !running {
                StopStep { next: StopState::Stopped, action: StopAction::Succeed }
            } else if elapsed_ms / 1000 < timeout_secs {
                StopStep { next: StopState::Polling, action: StopAction::Sleep(POLL_INTERVAL_MS) }
            } else {
                let kill = match platform {
                    Platform::MacOs => ControlCommand::KillByAppName,
                    Platform::Windows => ControlCommand::TaskKill,
                    Platform::Linux => ControlCommand::KillByProcessName,
                };
                StopStep { next: StopState::Escalated, action: StopAction::Run(kill) }
            }
        },
        StopState::Escalated => StopStep { next: StopState::LastLook, action: StopAction::Sleep(GRACE_MS) },
        StopState::LastLook => {
            if running {
                StopStep { next: StopState::TimedOut, action: StopAction::Fail }
            } else {
                StopStep { next: StopState::Stopped, action: StopAction::Succeed }
            }
        },
        StopState::Stopped => StopStep { next: StopState::Stopped, action: StopAction::Succeed },
        StopState::TimedOut => StopStep { next: StopState::TimedOut, action: StopAction::Fail },
    }
}

/// Takes one step of a stop, looking at the process list where the step
/// depends on it. Whether the application is alive is the machine's answer;
/// the step is the transition for one of the two answers, and for either
/// where the state does not look.
pub fn close_antigravity(
    state: StopState,
    platform: Platform,
    timeout_secs: u64,
    elapsed_ms: u64,
    current_pid: u32,
) -> (step: StopStep)
    ensures
        step == stop_transition(state, platform, timeout_secs, elapsed_ms, true) || step
            == stop_transition(state, platform, timeout_secs, elapsed_ms, false),
        !looks_at_processes(state) ==> step == stop_transition(
            state,
            platform,
            timeout_secs,
            elapsed_ms,
            false,
        ),
{
    let running = match state {
        StopState::Polling | StopState::LastLook => is_antigravity_running(platform, current_pid),
        _ => false,
    };
    stop_decide(state, platform, timeout_secs, elapsed_ms, running)
}

/// A stop reports success only on a look that found the application gone, and
/// failure only on a last look that found it alive; once reported, the report
/// stands.
pub proof fn stop_reports_what_was_seen(
    state: StopState,
    platform: Platform,
    timeout_secs: u64,
    elapsed_ms: u64,
    running: bool,
)
    ensures
        ({
            let step = stop_transition(state, platform, timeout_secs, elapsed_ms, running);
            &&& step.action == StopAction::Succeed ==> state == StopState::Stopped || (
            looks_at_processes(state) && !running)
            &&& step.action == StopAction::Fail ==> state == StopState::TimedOut || (state
                == StopState::LastLook && running)
            &&& (step.next == StopState::Stopped <==> step.action == StopAction::Succeed)
            &&& (step.next == StopState::TimedOut <==> step.action == StopAction::Fail)
        }),
{
}

/// The termination primitive that opens a stop on a platform: a request to
/// quit where the platform has one, else the kill by image name.
pub open spec fn first_termination(platform: Platform) -> ControlCommand {
    match platform {
        Platform::MacOs => ControlCommand::QuitRequest,
        Platform::Windows => ControlCommand::TaskKill,
        Platform::Linux => ControlCommand::TerminateByProcessName,
    }
}

/// On every platform a stop first issues the platform's termination
/// primitive, and only then starts the clock and polls: the application is
/// always asked to exit before it is waited for.
pub proof fn stop_asks_before_it_polls(
    state: StopState,
    platform: Platform,
    timeout_secs: u64,
    elapsed_ms: u64,
    running: bool,
)
    ensures
        stop_transition(StopState::Requested, platform, timeout_secs, elapsed_ms, running).action
            == StopAction::Run(first_termination(platform)),
        stop_transition(state, platform, timeout_secs, elapsed_ms, running).next == StopState::Polling
            ==> state == StopState::Ready || state == StopState::Polling,
        stop_transition(state, platform, timeout_secs, elapsed_ms, running).next == StopState::Ready
            ==> state == StopState::Settling || (state == StopState::Requested && platform
            != Platform::Windows),
        stop_transition(state, platform, timeout_secs, elapsed_ms, running).next
            == StopState::Settling ==> state == StopState::Requested,
{
}

/// Stopping an application that is not running succeeds at the first look,
/// whatever the timeout.
pub proof fn stop_of_stopped_succeeds(platform: Platform, timeout_secs: u64, elapsed_ms: u64)
    ensures
        stop_transition(StopState::Polling, platform, timeout_secs, elapsed_ms, false) == (StopStep {
            next: StopState::Stopped,
            action: StopAction::Succeed,
        }),
{
}

/// The application did not exit within the timeout and outlived the forceful
/// kill.
#[derive(Debug, Clone, Copy, PartialEq, Eq, Structural)]
pub struct StopTimeoutError;

/// What a stop reports in a state: nothing while it is under way.
pub open spec fn stop_report(state: StopState) -> Option<Result<(), StopTimeoutError>> {
    match state {
        StopState::Stopped => Some(Ok(())),
        StopState::TimedOut => Some(Err(StopTimeoutError)),
        _ => None,
    }
}

/// The result of a stop, once it has one.
pub fn stop_result(state: StopState) -> (report: Option<Result<(), StopTimeoutError>>)
    ensures
        report == stop_report(state),
{
    match state {
        StopState::Stopped => Some(Ok(())),
        StopState::TimedOut => Some(Err(StopTimeoutError)),
        _ => None,
    }
}

/// What one step of a stop gets to see: how long the wait has lasted and
/// whether the application is alive.
#[derive(Debug, Clone, Copy)]
pub struct Observation {
    pub elapsed_ms: u64,
    pub running: bool,
}

/// The state that a stop reaches from `state` by taking one step for each
/// observation from `from` on.
pub open spec fn stop_run(
    state: StopState,
    platform: Platform,
    timeout_secs: u64,
    seen: Seq<Observation>,
    from: int,
) -> StopState
    decreases seen.len() - from,
{
    if from < 0 || from >= seen.len() {
        state
    } else {
        stop_run(
            stop_transition(state, platform, timeout_secs, seen[from].elapsed_ms, seen[from].running).next,
            platform,
            timeout_secs,
            seen,
            from + 1,
        )
    }
}

/// A stop never reports success on an application that is alive at every
/// look: however long it runs, it does not reach `Stopped`.
pub proof fn stubborn_application_is_never_reported_stopped(
    state: StopState,
    platform: Platform,
    timeout_secs: u64,
    seen: Seq<Observation>,
    from: int,
)
    requires
        state != StopState::Stopped,
        0 <= from <= seen.len(),
        forall|i: int| from <= i < seen.len() ==> (#[trigger] seen[i]).running,
    ensures
        stop_run(state, platform, timeout_secs, seen, from) != StopState::Stopped,
    decreases seen.len() - from,
{
    if from < seen.len() {
        let next = stop_transition(
            state,
            platform,
            timeout_secs,
            seen[from].elapsed_ms,
            seen[from].running,
        ).next;
        stubborn_application_is_never_reported_stopped(next, platform, timeout_secs, seen, from + 1);
    }
}

/// Once a look while polling finds the application gone, the stop is
/// `Stopped` and stays so whatever is seen afterwards.
pub proof fn cooperating_application_is_reported_stopped(
    state: StopState,
    platform: Platform,
    timeout_secs: u64,
    seen: Seq<Observation>,
    from: int,
)
    requires
        0 <= from <= seen.len(),
        state == StopState::Stopped || (looks_at_processes(state) && from < seen.len()
            && !seen[from].running),
    ensures
        stop_run(state, platform, timeout_secs, seen, from) == StopState::Stopped,
    decreases seen.len() - from,
{
    if from < seen.len() {
        cooperating_application_is_reported_stopped(
            StopState::Stopped,
            platform,
            timeout_secs,
            seen,
            from + 1,
        );
    }
}

/// An application that is alive at every look is reported as timed out
/// within four steps of the first look past the timeout.
pub proof fn stubborn_application_times_out(platform: Platform, timeout_secs: u64, seen: Seq<Observation>)
    requires
        seen.len() >= 3,
        forall|i: int| 0 <= i < seen.len() ==> (#[trigger] seen[i]).running,
        !within_timeout(timeout_secs, seen[0].elapsed_ms),
    ensures
        stop_run(StopState::Polling, platform, timeout_secs, seen, 0) == StopState::TimedOut,
        stop_report(stop_run(StopState::Polling, platform, timeout_secs, seen, 0)) == Some(
            Err::<(), StopTimeoutError>(StopTimeoutError),
        ),
{
    reveal_with_fuel(stop_run, 4);
    timed_out_is_final(platform, timeout_secs, seen, 3);
}

/// A stop that has timed out stays so.
pub proof fn timed_out_is_final(platform: Platform, timeout_secs: u64, seen: Seq<Observation>, from: int)
    requires
        0 <= from <= seen.len(),
    ensures
        stop_run(StopState::TimedOut, platform, timeout_secs, seen, from) == StopState::TimedOut,
    decreases seen.len() - from,
{
    if from < seen.len() {
        timed_out_is_final(platform, timeout_secs, seen, from + 1);
    }
}

/// How a launch command ended.
#[derive(Debug, Clone, Copy, PartialEq, Eq, Structural)]
pub enum LaunchOutcome {
    /// The command could not be run at all.
    NotRun,
    /// The command was handed to the system and not waited for.
    Spawned,
    /// The command ran to its end and reported success.
    ExitedOk,
    /// The command ran to its end and reported failure.
    ExitedWithFailure,
}

/// Why a launch failed.
#[derive(Debug, Clone, Copy, PartialEq, Eq, Structural)]
pub enum LaunchError {
    /// The launch command could not be run.
    CommandUnavailable,
    /// The launch command ran and reported that it could not start the
    /// application.
    Rejected,
}

/// How a platform launches the application, and whether the caller waits for
/// the command to end.
#[derive(Debug, Clone, Copy, PartialEq, Eq, Structural)]
pub struct LaunchPlan {
    pub command: ControlCommand,
    pub wait_for_exit: bool,
}

/// The launch plan of a platform. Only the opener is waited for: it is the
/// one that can say that the application was not found.
pub open spec fn launch_plan_of(platform: Platform) -> LaunchPlan {
    match platform {
        Platform::MacOs => LaunchPlan { command: ControlCommand::OpenApplication, wait_for_exit: true },
        Platform::Windows => LaunchPlan { command: ControlCommand::OpenScheme, wait_for_exit: false },
        Platform::Linux => LaunchPlan { command: ControlCommand::SpawnExecutable, wait_for_exit: false },
    }
}

/// What a launch that ended in `outcome` reports. A command that was only
/// spawned is taken at its word.
pub open spec fn launch_result_of(outcome: LaunchOutcome) -> Result<(), LaunchError> {
    match outcome {
        LaunchOutcome::NotRun => Err(LaunchError::CommandUnavailable),
        LaunchOutcome::ExitedWithFailure => Err(LaunchError::Rejected),
        LaunchOutcome::Spawned => Ok(()),
        LaunchOutcome::ExitedOk => Ok(()),
    }
}

/// The command that launches the application on a platform.
pub fn launch_plan(platform: Platform) -> (plan: LaunchPlan)
    ensures
        plan == launch_plan_of(platform),
{
    match platform {
        Platform::MacOs => LaunchPlan { command: ControlCommand::OpenApplication, wait_for_exit: true },
        Platform::Windows => LaunchPlan { command: ControlCommand::OpenScheme, wait_for_exit: false },
        Platform::Linux => LaunchPlan { command: ControlCommand::SpawnExecutable, wait_for_exit: false },
    }
}

/// What a start reports once its launch command ended in `outcome`.
pub fn start_antigravity(outcome: LaunchOutcome) -> (result: Result<(), LaunchError>)
    ensures
        result == launch_result_of(outcome),
{
    match outcome {
        LaunchOutcome::NotRun => Err(LaunchError::CommandUnavailable),
        LaunchOutcome::ExitedWithFailure => Err(LaunchError::Rejected),
        LaunchOutcome::Spawned => Ok(()),
        LaunchOutcome::ExitedOk => Ok(()),
    }
}

} // verus!
