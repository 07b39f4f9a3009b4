use account_switch::control::{
    close_antigravity, command_line, launch_plan, stop_result, StopTimeoutError, start_antigravity, stop_decide, ControlCommand, LaunchError,
    LaunchOutcome, LaunchPlan, StopAction, StopState, StopStep, GRACE_MS, POLL_INTERVAL_MS, SETTLE_MS,
};
use account_switch::process::Platform;

fn step(next: StopState, action: StopAction) -> StopStep {
    StopStep { next, action }
}

#[test]
fn stop_opens_by_platform() {
    assert_eq!(
        stop_decide(StopState::Requested, Platform::Windows, 10, 0, true),
        step(StopState::Settling, StopAction::Run(ControlCommand::TaskKill))
    );
    assert_eq!(
        stop_decide(StopState::Settling, Platform::Windows, 10, 0, true),
        step(StopState::Ready, StopAction::Sleep(200))
    );
    assert_eq!(SETTLE_MS, 200);
    assert_eq!(
        stop_decide(StopState::Requested, Platform::MacOs, 10, 0, true),
        step(StopState::Ready, StopAction::Run(ControlCommand::QuitRequest))
    );
    assert_eq!(
        stop_decide(StopState::Ready, Platform::MacOs, 10, 0, true),
        step(StopState::Polling, StopAction::StartClock)
    );
    assert_eq!(
        stop_decide(StopState::Requested, Platform::Linux, 10, 0, true),
        step(StopState::Ready, StopAction::Run(ControlCommand::TerminateByProcessName))
    );
    assert_eq!(
        stop_decide(StopState::Ready, Platform::Linux, 10, 0, true),
        step(StopState::Polling, StopAction::StartClock)
    );
}

#[test]
fn stop_of_a_stopped_application_succeeds_at_once() {
    assert_eq!(
        stop_decide(StopState::Polling, Platform::Linux, 10, 0, false),
        step(StopState::Stopped, StopAction::Succeed)
    );
    assert_eq!(
        stop_decide(StopState::Polling, Platform::Linux, 0, 0, false),
        step(StopState::Stopped, StopAction::Succeed)
    );
}

#[test]
fn stop_polls_until_the_timeout() {
    assert_eq!(
        stop_decide(StopState::Polling, Platform::Linux, 10, 9_999, true),
        step(StopState::Polling, StopAction::Sleep(500))
    );
    assert_eq!(POLL_INTERVAL_MS, 500);
    assert_eq!(
        stop_decide(StopState::Polling, Platform::Linux, 10, 10_000, true),
        step(StopState::Escalated, StopAction::Run(ControlCommand::KillByProcessName))
    );
    assert_eq!(
        stop_decide(StopState::Polling, Platform::MacOs, 10, 10_000, true),
        step(StopState::Escalated, StopAction::Run(ControlCommand::KillByAppName))
    );
    assert_eq!(
        stop_decide(StopState::Polling, Platform::Windows, 0, 0, true),
        step(StopState::Escalated, StopAction::Run(ControlCommand::TaskKill))
    );
    assert_eq!(
        stop_decide(StopState::Polling, Platform::Linux, u64::MAX, u64::MAX, true),
        step(StopState::Polling, StopAction::Sleep(500))
    );
}

#[test]
fn stubborn_application_times_out() {
    let mut state = StopState::Requested;
    let mut actions = Vec::new();
    let mut elapsed: u64 = 0;
    for _ in 0..20 {
        let s = stop_decide(state, Platform::Linux, 1, elapsed, true);
        actions.push(s.action);
        state = s.next;
        if let StopAction::Sleep(ms) = s.action {
            elapsed += ms;
        }
        if s.action == StopAction::Fail || s.action == StopAction::Succeed {
            break;
        }
    }
    assert_eq!(state, StopState::TimedOut);
    assert_eq!(
        actions,
        vec![
            StopAction::Run(ControlCommand::TerminateByProcessName),
            StopAction::StartClock,
            StopAction::Sleep(500),
            StopAction::Sleep(500),
            StopAction::Run(ControlCommand::KillByProcessName),
            StopAction::Sleep(GRACE_MS),
            StopAction::Fail,
        ]
    );
    assert_eq!(GRACE_MS, 1000);
}

#[test]
fn forceful_kill_can_still_succeed() {
    assert_eq!(
        stop_decide(StopState::Escalated, Platform::Linux, 1, 5000, true),
        step(StopState::LastLook, StopAction::Sleep(1000))
    );
    assert_eq!(
        stop_decide(StopState::LastLook, Platform::Linux, 1, 5000, false),
        step(StopState::Stopped, StopAction::Succeed)
    );
    assert_eq!(
        stop_decide(StopState::LastLook, Platform::Linux, 1, 5000, true),
        step(StopState::TimedOut, StopAction::Fail)
    );
    assert_eq!(
        stop_decide(StopState::Stopped, Platform::Linux, 1, 5000, true),
        step(StopState::Stopped, StopAction::Succeed)
    );
    assert_eq!(
        stop_decide(StopState::TimedOut, Platform::Linux, 1, 5000, false),
        step(StopState::TimedOut, StopAction::Fail)
    );
}

#[test]
fn stop_step_without_a_look_is_fixed() {
    let me: u32 = u32::MAX;
    assert_eq!(
        close_antigravity(StopState::Requested, Platform::Windows, 10, 0, me),
        step(StopState::Settling, StopAction::Run(ControlCommand::TaskKill))
    );
    assert_eq!(
        close_antigravity(StopState::Escalated, Platform::Windows, 10, 0, me),
        step(StopState::LastLook, StopAction::Sleep(1000))
    );
    let looked = close_antigravity(StopState::LastLook, Platform::Windows, 10, 0, me);
    assert!(
        looked == step(StopState::Stopped, StopAction::Succeed)
            || looked == step(StopState::TimedOut, StopAction::Fail)
    );
}

#[test]
fn launch_plans_by_platform() {
    assert_eq!(
        launch_plan(Platform::MacOs),
        LaunchPlan { command: ControlCommand::OpenApplication, wait_for_exit: true }
    );
    assert_eq!(
        launch_plan(Platform::Windows),
        LaunchPlan { command: ControlCommand::OpenScheme, wait_for_exit: false }
    );
    assert_eq!(
        launch_plan(Platform::Linux),
        LaunchPlan { command: ControlCommand::SpawnExecutable, wait_for_exit: false }
    );
}

#[test]
fn start_reports_each_outcome() {
    assert_eq!(start_antigravity(LaunchOutcome::Spawned), Ok(()));
    assert_eq!(start_antigravity(LaunchOutcome::ExitedOk), Ok(()));
    assert_eq!(start_antigravity(LaunchOutcome::NotRun), Err(LaunchError::CommandUnavailable));
    assert_eq!(start_antigravity(LaunchOutcome::ExitedWithFailure), Err(LaunchError::Rejected));
}

#[test]
fn commands_spell_out_as_the_system_takes_them() {
    let line = command_line(ControlCommand::TaskKill);
    assert_eq!(line.program, "taskkill");
    assert_eq!(line.args, vec!["/F".to_string(), "/IM".to_string(), "Antigravity.exe".to_string()]);
    let line = command_line(ControlCommand::QuitRequest);
    assert_eq!(line.program, "osascript");
    assert_eq!(line.args, vec!["-e".to_string(), "tell application \"Antigravity\" to quit".to_string()]);
    let line = command_line(ControlCommand::KillByAppName);
    assert_eq!((line.program.as_str(), line.args), ("pkill", vec!["-9".to_string(), "Antigravity".to_string()]));
    let line = command_line(ControlCommand::KillByProcessName);
    assert_eq!((line.program.as_str(), line.args), ("pkill", vec!["-9".to_string(), "antigravity".to_string()]));
    let line = command_line(ControlCommand::TerminateByProcessName);
    assert_eq!((line.program.as_str(), line.args), ("pkill", vec!["-TERM".to_string(), "antigravity".to_string()]));
    let line = command_line(ControlCommand::OpenApplication);
    assert_eq!((line.program.as_str(), line.args), ("open", vec!["-a".to_string(), "Antigravity".to_string()]));
    let line = command_line(ControlCommand::OpenScheme);
    assert_eq!(line.program, "cmd");
    assert_eq!(line.args, vec!["/C".to_string(), "start".to_string(), "antigravity://".to_string()]);
    let line = command_line(ControlCommand::SpawnExecutable);
    assert_eq!(line.program, "antigravity");
    assert!(line.args.is_empty());
}

#[test]
fn stop_has_a_result_only_at_its_end() {
    assert_eq!(stop_result(StopState::Stopped), Some(Ok(())));
    assert_eq!(stop_result(StopState::TimedOut), Some(Err(StopTimeoutError)));
    assert_eq!(stop_result(StopState::Polling), None);
    assert_eq!(stop_result(StopState::Requested), None);
    assert_eq!(stop_result(StopState::LastLook), None);
}

#[test]
fn cooperating_application_is_asked_and_then_found_gone() {
    let mut state = StopState::Requested;
    let mut actions = Vec::new();
    for running in [true, true, false] {
        let s = stop_decide(state, Platform::Linux, 10, 0, running);
        actions.push(s.action);
        state = s.next;
    }
    assert_eq!(state, StopState::Stopped);
    assert_eq!(
        actions,
        vec![
            StopAction::Run(ControlCommand::TerminateByProcessName),
            StopAction::StartClock,
            StopAction::Succeed,
        ]
    );
}
