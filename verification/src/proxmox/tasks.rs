//! Worker task status (`/nodes/{node}/tasks/{upid}/status`) and waiting.
//!
//! Mutating calls like creating a VM or container return at once with a task
//! UPID while the work runs on the node. Waiting polls the task status until
//! it stops, mapping a non-`OK` exit to an error; [`wait_step`] decides each
//! round.

use vstd::prelude::*;
use crate::encoding::{percent_encoded, url_encode};
use crate::proxmox::client::{node_path, spec_node_path};
use crate::proxmox::error::ProxmoxError;
use crate::text::{concat3, opt_str, opt_str_is, owned};
use std::time::Duration;

verus! {

/// Exit status reported by Proxmox for a successfully completed task.
pub const EXIT_OK: &'static str = "OK";

/// Status of a Proxmox worker task.
#[derive(Debug, Clone, Default, PartialEq, Eq)]
pub struct TaskStatus {
    pub upid: Option<String>,
    /// Task kind, e.g. `qmcreate`, `vzcreate` (the `type` field).
    pub task_type: Option<String>,
    /// `running` or `stopped`.
    pub status: Option<String>,
    /// Present once the task has stopped; `OK` on success, otherwise an error string.
    pub exitstatus: Option<String>,
    pub node: Option<String>,
}

/// Whether the task reports `status == "running"`.
pub open spec fn spec_running(t: TaskStatus) -> bool {
    opt_str(t.status) == Some("running"@)
}

/// Whether the task reports `status == "stopped"`.
pub open spec fn spec_stopped(t: TaskStatus) -> bool {
    opt_str(t.status) == Some("stopped"@)
}

/// Whether the task stopped with exit status `OK`.
pub open spec fn spec_succeeded(t: TaskStatus) -> bool {
    spec_stopped(t) && opt_str(t.exitstatus) == Some("OK"@)
}

impl TaskStatus {
    /// Whether the task is still running.
    pub fn is_running(&self) -> (b: bool)
        ensures
            b == spec_running(*self),
    {
        opt_str_is(&self.status, "running")
    }

    /// Whether the task has stopped (successfully or not).
    pub fn is_stopped(&self) -> (b: bool)
        ensures
            b == spec_stopped(*self),
    {
        opt_str_is(&self.status, "stopped")
    }

    /// Whether the task stopped with an `OK` exit status.
    pub fn succeeded(&self) -> (b: bool)
        ensures
            b == spec_succeeded(*self),
    {
        self.is_stopped() && opt_str_is(&self.exitstatus, EXIT_OK)
    }
}

/// A task that runs has not stopped, and one that has not stopped has not succeeded.
pub proof fn lemma_task_states(t: TaskStatus)
    ensures
        spec_running(t) ==> !spec_stopped(t),
        spec_succeeded(t) ==> spec_stopped(t) && !spec_running(t),
{
    if spec_running(t) && spec_stopped(t) {
        reveal_strlit("running");
        reveal_strlit("stopped");
        assert(("running"@)[0] == 'r');
        assert(("stopped"@)[0] == 's');
    }
}

/// Name for the value `Duration::from_secs(secs)`.
pub uninterp spec fn duration_of_secs(secs: u64) -> Duration;

/// `Duration::from_secs`.
#[verifier::external_body]
fn duration_from_secs(secs: u64) -> (d: Duration)
    ensures
        d == duration_of_secs(secs),
{
    Duration::from_secs(secs)
}

/// How to poll a task while waiting for it to finish.
#[derive(Debug, Clone, Copy, PartialEq, Eq)]
pub struct WaitOptions {
    /// Delay between status polls.
    pub poll_interval: Duration,
    /// Maximum total time to wait before giving up.
    pub timeout: Duration,
}

impl WaitOptions {
    /// Default options: poll every 2s, give up after 10 minutes.
    pub fn new() -> (o: Self)
        ensures
            o.poll_interval == duration_of_secs(2),
            o.timeout == duration_of_secs(600),
    {
        WaitOptions { poll_interval: duration_from_secs(2), timeout: duration_from_secs(600) }
    }

    /// Set the delay between polls.
    pub fn poll_interval(self, interval: Duration) -> (o: Self)
        ensures
            o.poll_interval == interval,
            o.timeout == self.timeout,
    {
        WaitOptions { poll_interval: interval, ..self }
    }

    /// Set the overall timeout.
    pub fn timeout(self, timeout: Duration) -> (o: Self)
        ensures
            o.timeout == timeout,
            o.poll_interval == self.poll_interval,
    {
        WaitOptions { timeout, ..self }
    }
}

impl Default for WaitOptions {
    fn default() -> (o: Self)
        ensures
            o.poll_interval == duration_of_secs(2),
            o.timeout == duration_of_secs(600),
    {
        WaitOptions::new()
    }
}

/// What to do after reading a task's status while waiting for it.
#[derive(Debug, Clone, PartialEq, Eq)]
pub enum WaitStep {
    /// The task stopped with `OK`; this is its final status.
    Finished(TaskStatus),
    /// The wait is over with an error.
    Failed(ProxmoxError),
    /// Sleep for the poll interval and read the status again.
    Poll,
}

/// The exit status reported in a task failure.
pub open spec fn failure_exitstatus(t: TaskStatus) -> Seq<char> {
    match t.exitstatus {
        Some(s) => s@,
        None => "unknown error"@,
    }
}

/// One round of waiting for task `upid`: a stopped task ends the wait
/// (successfully iff it exited `OK`); a task still going ends it with a
/// timeout once the deadline has passed, and is polled again otherwise.
pub fn wait_step(upid: &str, status: TaskStatus, deadline_passed: bool, timeout_secs: u64) -> (r:
    WaitStep)
    ensures
        spec_succeeded(status) ==> r == WaitStep::Finished(status),
        spec_stopped(status) && !spec_succeeded(status) ==> (r matches WaitStep::Failed(
            ProxmoxError::Task { upid: u, exitstatus: e },
        ) && u@ == upid@ && e@ == failure_exitstatus(status)),
        !spec_stopped(status) && deadline_passed ==> (r matches WaitStep::Failed(
            ProxmoxError::TaskTimeout { upid: u, timeout_secs: t },
        ) && u@ == upid@ && t == timeout_secs),
        !spec_stopped(status) && !deadline_passed ==> r == WaitStep::Poll,
{
    if status.is_stopped() {
        if status.succeeded() {
            return WaitStep::Finished(status);
        }
        let exitstatus = match status.exitstatus {
            Some(s) => s,
            None => owned("unknown error"),
        };
        return WaitStep::Failed(ProxmoxError::Task { upid: owned(upid), exitstatus });
    }
    if deadline_passed {
        return WaitStep::Failed(ProxmoxError::TaskTimeout { upid: owned(upid), timeout_secs });
    }
    WaitStep::Poll
}

/// `/nodes/{node}/tasks/{upid}/status`: a worker task's status.
pub fn task_status_path(node: &str, upid: &str) -> (s: String)
    ensures
        s@ == spec_node_path(node@, "/tasks/"@ + percent_encoded(upid@) + "/status"@),
{
    let u = url_encode(upid);
    let rest = concat3("/tasks/", u.as_str(), "/status");
    node_path(node, rest.as_str())
}

} // verus!
