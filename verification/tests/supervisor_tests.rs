use kernel_relay::supervisor::ProcessState;
use kernel_relay::supervisor::RunOutcome;
use kernel_relay::supervisor::SpawnOutcome;
use kernel_relay::supervisor::StopOutcome;
use kernel_relay::supervisor::Supervisor;
use kernel_relay::supervisor::SupervisorError;
use kernel_relay::check_kernel_version;

fn running_supervisor(pid: u32) -> Supervisor {
    let mut s = Supervisor::new();
    s.request_start(true).unwrap();
    s.complete_start(SpawnOutcome::Spawned(pid)).unwrap();
    s.mark_running();
    s
}

#[test]
fn fresh_supervisor_is_stopped() {
    let s = Supervisor::new();
    let st = s.get_status();
    assert_eq!(st.state, ProcessState::Stopped);
    assert_eq!(st.pid, None);
    assert!(st.last_error.is_none());
}

#[test]
fn start_when_running_fails_already_running() {
    let mut s = running_supervisor(4242);
    let r = s.request_start(true);
    assert!(matches!(r, Err(SupervisorError::AlreadyRunning)));
    let st = s.get_status();
    assert_eq!(st.state, ProcessState::Running);
    assert_eq!(st.pid, Some(4242));
}

#[test]
fn stop_when_stopped_fails_not_running() {
    let mut s = Supervisor::new();
    let r = s.request_stop();
    assert!(matches!(r, Err(SupervisorError::NotRunning)));
    assert_eq!(s.get_status().state, ProcessState::Stopped);
}

#[test]
fn start_with_binary_missing_fails_kernel_not_found() {
    let mut s = Supervisor::new();
    let r = s.request_start(false);
    let e = match r {
        Err(e) => e,
        Ok(_) => panic!("start must fail without the binary"),
    };
    assert!(matches!(e, SupervisorError::KernelNotFound));
    assert!(e.message().contains("not found"));
    let st = s.get_status();
    assert_eq!(st.state, ProcessState::Stopped);
    assert_eq!(st.pid, None);
}

#[test]
fn successful_spawn_reports_running_with_pid() {
    let s = running_supervisor(31337);
    let st = s.get_status();
    assert_eq!(st.state, ProcessState::Running);
    assert_eq!(st.pid, Some(31337));
    assert!(st.last_error.is_none());
}

#[test]
fn spawn_failure_keeps_state_and_records_reason() {
    let mut s = Supervisor::new();
    s.request_start(true).unwrap();
    let r = s.complete_start(SpawnOutcome::Failed("permission denied".to_string()));
    assert!(matches!(r, Err(SupervisorError::SpawnFailed(_))));
    let st = s.get_status();
    assert_eq!(st.state, ProcessState::Stopped);
    assert_eq!(st.pid, None);
    assert!(st.last_error.unwrap().contains("permission denied"));
}

#[test]
fn stop_lifecycle_reaches_stopped_without_pid() {
    let mut s = running_supervisor(7);
    s.request_stop().unwrap();
    let st = s.get_status();
    assert_eq!(st.state, ProcessState::Stopping);
    assert_eq!(st.pid, Some(7));
    s.complete_stop(StopOutcome::Exited).unwrap();
    let st = s.get_status();
    assert_eq!(st.state, ProcessState::Stopped);
    assert_eq!(st.pid, None);
}

#[test]
fn stop_timeout_leaves_stopping_for_retry() {
    let mut s = running_supervisor(7);
    s.request_stop().unwrap();
    let r = s.complete_stop(StopOutcome::TimedOut);
    assert!(matches!(r, Err(SupervisorError::StopTimeout)));
    let st = s.get_status();
    assert_eq!(st.state, ProcessState::Stopping);
    assert_eq!(st.pid, Some(7));
    s.complete_stop(StopOutcome::Exited).unwrap();
    assert_eq!(s.get_status().state, ProcessState::Stopped);
}

#[test]
fn unexpected_exit_crashes_with_reason() {
    let mut s = running_supervisor(99);
    s.record_exit("exit status 1".to_string());
    let st = s.get_status();
    assert_eq!(st.state, ProcessState::Crashed);
    assert_eq!(st.pid, None);
    let msg = st.last_error.unwrap();
    assert!(msg.contains("unexpectedly"));
    assert!(msg.contains("exit status 1"));
}

#[test]
fn exit_while_stopping_is_a_clean_stop() {
    let mut s = running_supervisor(99);
    s.request_stop().unwrap();
    s.record_exit("terminated".to_string());
    let st = s.get_status();
    assert_eq!(st.state, ProcessState::Stopped);
    assert_eq!(st.pid, None);
    assert!(st.last_error.is_none());
}

#[test]
fn crashed_recovers_through_start() {
    let mut s = running_supervisor(1);
    s.record_exit("killed".to_string());
    assert_eq!(s.get_status().state, ProcessState::Crashed);
    s.request_start(true).unwrap();
    s.complete_start(SpawnOutcome::Spawned(2)).unwrap();
    s.mark_running();
    let st = s.get_status();
    assert_eq!(st.state, ProcessState::Running);
    assert_eq!(st.pid, Some(2));
    assert!(st.last_error.is_none());
}

#[test]
fn pid_present_iff_live_state_through_a_lifecycle() {
    let mut s = Supervisor::new();
    let live = |st: &kernel_relay::supervisor::ProcessStatus| {
        st.state == ProcessState::Starting || st.state == ProcessState::Running
            || st.state == ProcessState::Stopping
    };
    let st = s.get_status();
    assert_eq!(st.pid.is_some(), live(&st));
    s.request_start(true).unwrap();
    let st = s.get_status();
    assert_eq!(st.pid.is_some(), live(&st));
    s.complete_start(SpawnOutcome::Spawned(5)).unwrap();
    let st = s.get_status();
    assert_eq!(st.pid.is_some(), live(&st));
    s.mark_running();
    let st = s.get_status();
    assert_eq!(st.pid.is_some(), live(&st));
    s.request_stop().unwrap();
    let st = s.get_status();
    assert_eq!(st.pid.is_some(), live(&st));
    s.complete_stop(StopOutcome::Exited).unwrap();
    let st = s.get_status();
    assert_eq!(st.pid.is_some(), live(&st));
}

#[test]
fn version_check_without_binary_fails_not_found() {
    let r = check_kernel_version(false, None);
    assert!(matches!(r, Err(SupervisorError::KernelNotFound)));
}

#[test]
fn version_check_returns_stdout_on_success() {
    let r = check_kernel_version(
        true,
        Some(RunOutcome::Output {
            success: true,
            stdout: "sing-box version 1.9.0".to_string(),
            stderr: String::new(),
        }),
    );
    assert_eq!(r.unwrap(), "sing-box version 1.9.0");
}

#[test]
fn version_check_surfaces_stderr_on_failure() {
    let r = check_kernel_version(
        true,
        Some(RunOutcome::Output {
            success: false,
            stdout: String::new(),
            stderr: "bad flag".to_string(),
        }),
    );
    match r {
        Err(SupervisorError::VersionCheckFailed(m)) => assert_eq!(m, "bad flag"),
        other => panic!("unexpected outcome: {:?}", other.is_ok()),
    }
}

#[test]
fn version_check_surfaces_launch_failure() {
    let r = check_kernel_version(true, Some(RunOutcome::LaunchFailure("exec failed".to_string())));
    match r {
        Err(SupervisorError::VersionCheckFailed(m)) => assert_eq!(m, "exec failed"),
        _ => panic!("expected a version check failure"),
    }
}
