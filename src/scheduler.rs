use vstd::prelude::*;

use crate::checkerror::CheckError;
use crate::config::{
    RunConfig, MAX_INTERVAL_SECS, MAX_TIMEOUT_SECS, MIN_INTERVAL_SECS, MIN_TIMEOUT_SECS,
};
use crate::workset::{drop_succeeded, lemma_all_failed_keeps_all, successes, survivors};

verus! {

/// Exit status once every endpoint has answered, or when none was configured.
pub const EXIT_ALL_PASSED: i32 = 0;

/// Exit status when an interrupt stopped the run before it was done.
pub const EXIT_INTERRUPTED: i32 = 130;

/// Where the check loop stands.
#[derive(Debug, Clone, Copy, PartialEq, Eq, Structural)]
pub enum Phase {
    /// Passes are still to come.
    Running,
    /// Nothing is pending any more: the run ends with success.
    Draining,
    /// An interrupt ended the run.
    Terminated,
}

/// What the caller of the check loop does next.
#[derive(Debug, Clone, Copy, PartialEq, Eq, Structural)]
pub enum Action {
    /// Probe every pending TCP endpoint, then every pending HTTP endpoint, in
    /// order, and report the outcomes.
    ProbeAll,
    /// Wait this many seconds, then begin the next pass.
    Sleep(u64),
    /// Stop the process with this status.
    Exit(i32),
}

/// The check loop's state: its phase, the endpoints that have not answered yet,
/// and the pause between passes.
pub struct Scheduler {
    phase: Phase,
    interval_secs: u64,
    timeout_secs: u64,
    tcp: Vec<String>,
    http: Vec<String>,
}

impl Scheduler {
    pub closed spec fn current_phase(&self) -> Phase {
        self.phase
    }

    pub closed spec fn retry_interval(&self) -> u64 {
        self.interval_secs
    }

    pub closed spec fn probe_timeout(&self) -> u64 {
        self.timeout_secs
    }

    pub closed spec fn tcp_pending(&self) -> Seq<String> {
        self.tcp@
    }

    pub closed spec fn http_pending(&self) -> Seq<String> {
        self.http@
    }

    /// Nothing is pending, over both protocols.
    pub open spec fn drained(&self) -> bool {
        self.tcp_pending().len() == 0 && self.http_pending().len() == 0
    }

    /// The pause and the probe time limit lie within their bounds.
    pub open spec fn wf(&self) -> bool {
        MIN_INTERVAL_SECS <= self.retry_interval() <= MAX_INTERVAL_SECS && MIN_TIMEOUT_SECS
            <= self.probe_timeout() <= MAX_TIMEOUT_SECS
    }

    /// A loop that has not begun: every configured endpoint is pending.
    pub fn new(config: RunConfig) -> (r: Scheduler)
        requires
            config.wf(),
        ensures
            r.wf(),
            r.current_phase() == Phase::Running,
            r.retry_interval() == config.interval_secs,
            r.probe_timeout() == config.timeout_secs,
            r.tcp_pending() == config.tcp@,
            r.http_pending() == config.http@,
    {
        Scheduler {
            phase: Phase::Running,
            interval_secs: config.interval_secs,
            timeout_secs: config.timeout_secs,
            tcp: config.tcp,
            http: config.http,
        }
    }

    /// Where the loop stands.
    pub fn phase(&self) -> (r: Phase)
        ensures
            r == self.current_phase(),
    {
        self.phase
    }

    /// The pause between passes, in seconds.
    pub fn interval_secs(&self) -> (r: u64)
        ensures
            r == self.retry_interval(),
    {
        self.interval_secs
    }

    /// The time limit of one probe, in seconds.
    pub fn timeout_secs(&self) -> (r: u64)
        ensures
            r == self.probe_timeout(),
    {
        self.timeout_secs
    }

    /// The TCP endpoints that have not answered yet, in their configured order.
    pub fn pending_tcp(&self) -> (r: &Vec<String>)
        ensures
            r@ == self.tcp_pending(),
    {
        &self.tcp
    }

    /// The HTTP endpoints that have not answered yet, in their configured order.
    pub fn pending_http(&self) -> (r: &Vec<String>)
        ensures
            r@ == self.http_pending(),
    {
        &self.http
    }

    /// How many TCP and how many HTTP endpoints are pending.
    pub fn remaining_counts(&self) -> (r: (usize, usize))
        ensures
            r.0 == self.tcp_pending().len(),
            r.1 == self.http_pending().len(),
    {
        (self.tcp.len(), self.http.len())
    }

    /// Tells whether nothing is pending.
    pub fn is_empty(&self) -> (r: bool)
        ensures
            r == self.drained(),
    {
        self.tcp.len() == 0 && self.http.len() == 0
    }

    /// Decides, at the start of a pass, whether the pass runs. With nothing
    /// pending (which only happens when nothing was configured) the run ends
    /// with success and no probe; else, once the shutdown flag is set, the run
    /// ends as interrupted and no probe starts; else every pending endpoint is
    /// probed.
    pub fn begin_iteration(&mut self, shutdown: bool) -> (a: Action)
        requires
            old(self).current_phase() == Phase::Running,
        ensures
            final(self).tcp_pending() == old(self).tcp_pending(),
            final(self).http_pending() == old(self).http_pending(),
            final(self).retry_interval() == old(self).retry_interval(),
            final(self).probe_timeout() == old(self).probe_timeout(),
            old(self).drained() ==> a == Action::Exit(EXIT_ALL_PASSED) && final(self).current_phase() == Phase::Draining,
            !old(self).drained() && shutdown ==> a == Action::Exit(EXIT_INTERRUPTED) && final(self).current_phase() == Phase::Terminated,
            !old(self).drained() && !shutdown ==> a == Action::ProbeAll && final(self).current_phase() == Phase::Running,
    {
        if self.is_empty() {
            self.phase = Phase::Draining;
            Action::Exit(EXIT_ALL_PASSED)
        } else if shutdown {
            self.phase = Phase::Terminated;
            Action::Exit(EXIT_INTERRUPTED)
        } else {
            Action::ProbeAll
        }
    }

    /// Takes the outcomes of a pass, one per pending endpoint and in the same
    /// order, and drops every endpoint that succeeded. With nothing left the run
    /// ends with success; else the loop waits the interval before the next pass.
    pub fn finish_iteration(
        &mut self,
        tcp_outcomes: &Vec<Result<(), CheckError>>,
        http_outcomes: &Vec<Result<(), CheckError>>,
    ) -> (a: Action)
        requires
            old(self).current_phase() == Phase::Running,
            tcp_outcomes@.len() == old(self).tcp_pending().len(),
            http_outcomes@.len() == old(self).http_pending().len(),
        ensures
            final(self).tcp_pending() == survivors(
                old(self).tcp_pending(),
                successes(tcp_outcomes@),
            ),
            final(self).http_pending() == survivors(
                old(self).http_pending(),
                successes(http_outcomes@),
            ),
            final(self).retry_interval() == old(self).retry_interval(),
            final(self).probe_timeout() == old(self).probe_timeout(),
            final(self).drained() ==> a == Action::Exit(EXIT_ALL_PASSED) && final(self).current_phase() == Phase::Draining,
            !final(self).drained() ==> a == Action::Sleep(old(self).retry_interval()) && final(self).current_phase() == Phase::Running,
    {
        drop_succeeded(&mut self.tcp, tcp_outcomes);
        drop_succeeded(&mut self.http, http_outcomes);
        if self.is_empty() {
            self.phase = Phase::Draining;
            Action::Exit(EXIT_ALL_PASSED)
        } else {
            Action::Sleep(self.interval_secs)
        }
    }
}

/// A pass in which every probe fails leaves a loop with pending endpoints
/// exactly as it was: nothing is dropped, and any state holding what such a
/// pass leaves pending is not drained. So `finish_iteration` on such a pass
/// never ends the run with success: it answers `Sleep`.
pub proof fn lemma_failed_pass_keeps_running(
    s: Scheduler,
    tcp_outcomes: Seq<Result<(), CheckError>>,
    http_outcomes: Seq<Result<(), CheckError>>,
)
    requires
        !s.drained(),
        tcp_outcomes.len() == s.tcp_pending().len(),
        http_outcomes.len() == s.http_pending().len(),
        forall|i: int| 0 <= i < tcp_outcomes.len() ==> tcp_outcomes[i] is Err,
        forall|i: int| 0 <= i < http_outcomes.len() ==> http_outcomes[i] is Err,
    ensures
        survivors(s.tcp_pending(), successes(tcp_outcomes)) == s.tcp_pending(),
        survivors(s.http_pending(), successes(http_outcomes)) == s.http_pending(),
        forall|after: Scheduler|
            after.tcp_pending() == survivors(s.tcp_pending(), successes(tcp_outcomes))
                && after.http_pending() == survivors(s.http_pending(), successes(http_outcomes))
                ==> !#[trigger] after.drained(),
{
    lemma_all_failed_keeps_all(s.tcp_pending(), successes(tcp_outcomes));
    lemma_all_failed_keeps_all(s.http_pending(), successes(http_outcomes));
}

} // verus!
