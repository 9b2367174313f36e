//! The process supervisor: owns the lifecycle state of the single supervised
//! kernel process.
//!
//! The supervisor is a state machine over `ProcessState`. Every operation that
//! involves the operating system (checking that the kernel binary exists,
//! spawning it, terminating it, observing its exit) is split in two: the
//! caller performs the outside call and hands its outcome to one of the
//! functions here, which performs the corresponding state transition under an
//! exact contract. The pid/state invariant `Supervisor::wf` is required and
//! re-established by every operation, so it holds after any sequence of calls.

use vstd::prelude::*;

verus! {

/// Lifecycle state of the supervised kernel process.
#[derive(Clone, Copy, PartialEq, Eq, Structural, Debug)]
pub enum ProcessState {
    Stopped,
    Starting,
    Running,
    Stopping,
    Crashed,
}

/// Typed failure of a supervisor operation.
#[derive(Debug)]
pub enum SupervisorError {
    AlreadyRunning,
    NotRunning,
    KernelNotFound,
    SpawnFailed(String),
    StopTimeout,
    VersionCheckFailed(String),
}

pub open spec fn msg_already_running() -> Seq<char> {
    "kernel is already running"@
}

pub open spec fn msg_not_running() -> Seq<char> {
    "kernel is not running"@
}

pub open spec fn msg_kernel_not_found() -> Seq<char> {
    "kernel binary not found"@
}

pub open spec fn msg_spawn_failed(reason: Seq<char>) -> Seq<char> {
    "failed to spawn kernel: "@ + reason
}

pub open spec fn msg_stop_timeout() -> Seq<char> {
    "kernel did not stop within the wait bound"@
}

pub open spec fn msg_version_check_failed(reason: Seq<char>) -> Seq<char> {
    "version check failed: "@ + reason
}

pub open spec fn msg_unexpected_exit(reason: Seq<char>) -> Seq<char> {
    "kernel exited unexpectedly: "@ + reason
}

impl SupervisorError {
    /// The human-readable description of this error.
    pub open spec fn msg_spec(&self) -> Seq<char> {
        match self {
            SupervisorError::AlreadyRunning => msg_already_running(),
            SupervisorError::NotRunning => msg_not_running(),
            SupervisorError::KernelNotFound => msg_kernel_not_found(),
            SupervisorError::SpawnFailed(reason) => msg_spawn_failed(reason@),
            SupervisorError::StopTimeout => msg_stop_timeout(),
            SupervisorError::VersionCheckFailed(reason) => msg_version_check_failed(reason@),
        }
    }

    /// Renders the error as its descriptive string.
    pub fn message(&self) -> (r: String)
        ensures
            r@ == self.msg_spec(),
    {
        match self {
            SupervisorError::AlreadyRunning => String::from_str("kernel is already running"),
            SupervisorError::NotRunning => String::from_str("kernel is not running"),
            SupervisorError::KernelNotFound => String::from_str("kernel binary not found"),
            SupervisorError::SpawnFailed(reason) => String::from_str("failed to spawn kernel: ")
                .concat(reason.as_str()),
            SupervisorError::StopTimeout => String::from_str(
                "kernel did not stop within the wait bound",
            ),
            SupervisorError::VersionCheckFailed(reason) => String::from_str(
                "version check failed: ",
            ).concat(reason.as_str()),
        }
    }
}

/// Snapshot of the supervisor's state, as returned by status queries.
pub struct ProcessStatus {
    pub state: ProcessState,
    pub pid: Option<u32>,
    pub last_error: Option<String>,
}

/// Mathematical model of a status snapshot.
pub struct StatusView {
    pub state: ProcessState,
    pub pid: Option<u32>,
    pub last_error: Option<Seq<char>>,
}

impl View for ProcessStatus {
    type V = StatusView;

    open spec fn view(&self) -> StatusView {
        StatusView {
            state: self.state,
            pid: self.pid,
            last_error: match &self.last_error {
                Some(e) => Some(e@),
                None => None,
            },
        }
    }
}

/// Outcome of an attempt to spawn the kernel process.
pub enum SpawnOutcome {
    Spawned(u32),
    Failed(String),
}

/// Outcome of the bounded wait for the kernel process to exit.
pub enum StopOutcome {
    Exited,
    TimedOut,
}

/// Outcome of running the kernel binary as a short-lived child process.
pub enum RunOutcome {
    Output { success: bool, stdout: String, stderr: String },
    LaunchFailure(String),
}

/// The process supervisor. It owns the one shared status record; all
/// transitions go through its methods.
pub struct Supervisor {
    status: ProcessStatus,
}

impl View for Supervisor {
    type V = StatusView;

    closed spec fn view(&self) -> StatusView {
        self.status@
    }
}

impl Supervisor {
    /// The status invariant: a pid is recorded exactly while the process is
    /// live from the supervisor's point of view (Starting, Running or
    /// Stopping), and never while Stopped or Crashed.
    pub open spec fn wf(&self) -> bool {
        (self@.pid is Some) <==> (self@.state == ProcessState::Starting
            || self@.state == ProcessState::Running || self@.state == ProcessState::Stopping)
    }

    /// A fresh supervisor: nothing running, no pid, no recorded error.
    pub fn new() -> (s: Supervisor)
        ensures
            s.wf(),
            s@.state == ProcessState::Stopped,
            s@.pid is None,
            s@.last_error is None,
    {
        Supervisor {
            status: ProcessStatus { state: ProcessState::Stopped, pid: None, last_error: None },
        }
    }

    /// Returns the current status snapshot. Never fails.
    pub fn get_status(&self) -> (r: ProcessStatus)
        ensures
            r@ == self@,
    {
        ProcessStatus {
            state: self.status.state,
            pid: self.status.pid,
            last_error: match &self.status.last_error {
                Some(e) => Some(e.clone()),
                None => None,
            },
        }
    }

    /// First half of `start()`: decides whether a spawn may be attempted.
    /// Fails with `AlreadyRunning` while the kernel runs, and with
    /// `KernelNotFound` when the caller reports the binary absent; in both
    /// cases state and pid are untouched. On `Ok` the caller attempts the
    /// spawn and reports back through `complete_start`.
    pub fn request_start(&mut self, binary_present: bool) -> (r: Result<(), SupervisorError>)
        requires
            old(self).wf(),
        ensures
            final(self).wf(),
            final(self)@.state == old(self)@.state,
            final(self)@.pid == old(self)@.pid,
            old(self)@.state == ProcessState::Running ==> (r matches Err(
                SupervisorError::AlreadyRunning,
            ) && final(self)@.last_error == Some(msg_already_running())),
            old(self)@.state != ProcessState::Running && !binary_present ==> (r matches Err(
                SupervisorError::KernelNotFound,
            ) && final(self)@.last_error == Some(msg_kernel_not_found())),
            old(self)@.state != ProcessState::Running && binary_present ==> (r matches Ok(_)
                && final(self)@.last_error == old(self)@.last_error),
    {
        if matches!(self.status.state, ProcessState::Running) {
            let e = SupervisorError::AlreadyRunning;
            self.status.last_error = Some(e.message());
            Err(e)
        } else if !binary_present {
            let e = SupervisorError::KernelNotFound;
            self.status.last_error = Some(e.message());
            Err(e)
        } else {
            Ok(())
        }
    }

    /// Second half of `start()`: records the outcome of the spawn attempt.
    /// A successful spawn moves to `Starting` with the new pid recorded and
    /// the last error cleared; a failed spawn leaves state and pid untouched
    /// and records the reason.
    pub fn complete_start(&mut self, outcome: SpawnOutcome) -> (r: Result<u32, SupervisorError>)
        requires
            old(self).wf(),
            old(self)@.pid is None,
        ensures
            final(self).wf(),
            outcome matches SpawnOutcome::Spawned(pid) ==> (r == Ok::<u32, SupervisorError>(pid)
                && final(self)@.state == ProcessState::Starting && final(self)@.pid == Some(pid)
                && final(self)@.last_error is None),
            outcome matches SpawnOutcome::Failed(reason) ==> ((r matches Err(
                SupervisorError::SpawnFailed(m),
            ) && m@ == reason@) && final(self)@.state == old(self)@.state && final(self)@.pid
                == old(self)@.pid && final(self)@.last_error == Some(msg_spawn_failed(reason@))),
    {
        match outcome {
            SpawnOutcome::Spawned(pid) => {
                self.status.state = ProcessState::Starting;
                self.status.pid = Some(pid);
                self.status.last_error = None;
                Ok(pid)
            },
            SpawnOutcome::Failed(reason) => {
                let e = SupervisorError::SpawnFailed(reason);
                self.status.last_error = Some(e.message());
                Err(e)
            },
        }
    }

    /// Final step of `start()`: the exit watcher is attached, the process is
    /// considered up.
    pub fn mark_running(&mut self)
        requires
            old(self).wf(),
            old(self)@.state == ProcessState::Starting,
        ensures
            final(self).wf(),
            final(self)@.state == ProcessState::Running,
            final(self)@.pid == old(self)@.pid,
            final(self)@.last_error == old(self)@.last_error,
    {
        self.status.state = ProcessState::Running;
    }

    /// First half of `stop()`: fails with `NotRunning` unless the kernel is
    /// running; otherwise moves to `Stopping` and tells the caller to send
    /// the termination signal and wait (bounded) for exit.
    pub fn request_stop(&mut self) -> (r: Result<(), SupervisorError>)
        requires
            old(self).wf(),
        ensures
            final(self).wf(),
            final(self)@.pid == old(self)@.pid,
            old(self)@.state != ProcessState::Running ==> (r matches Err(
                SupervisorError::NotRunning,
            ) && final(self)@.state == old(self)@.state && final(self)@.last_error == Some(
                msg_not_running(),
            )),
            old(self)@.state == ProcessState::Running ==> (r matches Ok(_) && final(self)@.state
                == ProcessState::Stopping && final(self)@.last_error == old(self)@.last_error),
    {
        if matches!(self.status.state, ProcessState::Running) {
            self.status.state = ProcessState::Stopping;
            Ok(())
        } else {
            let e = SupervisorError::NotRunning;
            self.status.last_error = Some(e.message());
            Err(e)
        }
    }

    /// Second half of `stop()`: records the outcome of the bounded wait.
    /// On exit the record moves to `Stopped` and the pid is cleared; on a
    /// timeout it stays `Stopping` (the caller may retry or escalate) and the
    /// attempt fails with `StopTimeout`.
    pub fn complete_stop(&mut self, outcome: StopOutcome) -> (r: Result<(), SupervisorError>)
        requires
            old(self).wf(),
            old(self)@.state == ProcessState::Stopping,
        ensures
            final(self).wf(),
            outcome matches StopOutcome::Exited ==> (r matches Ok(_) && final(self)@.state
                == ProcessState::Stopped && final(self)@.pid is None && final(self)@.last_error
                == old(self)@.last_error),
            outcome matches StopOutcome::TimedOut ==> (r matches Err(
                SupervisorError::StopTimeout,
            ) && final(self)@.state == ProcessState::Stopping && final(self)@.pid == old(
                self,
            )@.pid && final(self)@.last_error == Some(msg_stop_timeout())),
    {
        match outcome {
            StopOutcome::Exited => {
                self.status.state = ProcessState::Stopped;
                self.status.pid = None;
                Ok(())
            },
            StopOutcome::TimedOut => {
                let e = SupervisorError::StopTimeout;
                self.status.last_error = Some(e.message());
                Err(e)
            },
        }
    }

    /// Transition taken by the exit watcher when it observes the process
    /// leave. An exit while `Stopping` was supervisor-initiated and lands in
    /// `Stopped`; any other exit is unexpected and lands in `Crashed` with
    /// the exit reason recorded.
    pub fn record_exit(&mut self, reason: String)
        requires
            old(self).wf(),
            old(self)@.pid is Some,
        ensures
            final(self).wf(),
            final(self)@.pid is None,
            old(self)@.state == ProcessState::Stopping ==> (final(self)@.state
                == ProcessState::Stopped && final(self)@.last_error == old(self)@.last_error),
            old(self)@.state != ProcessState::Stopping ==> (final(self)@.state
                == ProcessState::Crashed && final(self)@.last_error == Some(
                msg_unexpected_exit(reason@),
            )),
    {
        if matches!(self.status.state, ProcessState::Stopping) {
            self.status.state = ProcessState::Stopped;
            self.status.pid = None;
        } else {
            self.status.state = ProcessState::Crashed;
            self.status.pid = None;
            self.status.last_error = Some(
                String::from_str("kernel exited unexpectedly: ").concat(reason.as_str()),
            );
        }
    }
}

/// Law: under the supervisor's invariant, a pid is reported by a status query
/// exactly while the state is Starting, Running or Stopping. Every operation
/// above requires and re-establishes `wf`, and `Supervisor::new` establishes
/// it, so this holds after any sequence of supervisor calls.
pub proof fn lemma_pid_iff_live(s: Supervisor)
    requires
        s.wf(),
    ensures
        (s@.pid is Some) <==> (s@.state == ProcessState::Starting || s@.state
            == ProcessState::Running || s@.state == ProcessState::Stopping),
{
}

/// Interprets the outcome of invoking the kernel binary with its version
/// flag. `binary_present` and `run` report what the caller found and what the
/// short-lived child returned; `run` is `None` when no child was run.
pub fn check_kernel_version(binary_present: bool, run: Option<RunOutcome>) -> (r: Result<
    String,
    SupervisorError,
>)
    ensures
        !binary_present ==> (r matches Err(SupervisorError::KernelNotFound)),
        binary_present ==> match run {
            Some(RunOutcome::Output { success, stdout, stderr }) => if success {
                r matches Ok(out) && out@ == stdout@
            } else {
                r matches Err(SupervisorError::VersionCheckFailed(m)) && m@ == stderr@
            },
            Some(RunOutcome::LaunchFailure(reason)) => (r matches Err(
                SupervisorError::VersionCheckFailed(m),
            ) && m@ == reason@),
            None => (r matches Err(SupervisorError::VersionCheckFailed(m)) && m@
                == "kernel produced no output"@),
        },
{
    if !binary_present {
        return Err(SupervisorError::KernelNotFound);
    }
    match run {
        Some(RunOutcome::Output { success, stdout, stderr }) => {
            if success {
                Ok(stdout)
            } else {
                Err(SupervisorError::VersionCheckFailed(stderr))
            }
        },
        Some(RunOutcome::LaunchFailure(reason)) => Err(
            SupervisorError::VersionCheckFailed(reason),
        ),
        None => Err(
            SupervisorError::VersionCheckFailed(String::from_str("kernel produced no output")),
        ),
    }
}

} // verus!
