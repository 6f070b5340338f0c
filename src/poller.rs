//! Waiting, within a time budget, until a resource in the cluster exists or
//! satisfies a condition.
use vstd::prelude::*;
use crate::text::{contains, contains_str};

verus! {

/// What one lookup of the awaited resource reported.
pub enum Observation {
    /// The resource is there (or its condition holds).
    Present,
    /// The lookup answered that the resource does not exist yet.
    Absent,
    /// The lookup gave no answer within the time it was allowed.
    NoAnswer,
    /// The lookup itself failed, for a reason other than absence.
    QueryFailed(String),
}

/// Why a wait ended without the resource becoming ready.
pub enum PollError {
    /// The budget ran out while the resource was still not there.
    TimedOut { waited_secs: u64, message: String },
    /// The query against the cluster failed; waiting longer would not help.
    CommandFailed(String),
}

/// What the poller asks for after an observation.
pub enum PollStep {
    /// The resource is ready: the wait is over.
    Ready,
    /// Look again after sleeping this many seconds.
    Sleep(u64),
    /// The wait is over and failed.
    Stop(PollError),
}

/// A bounded wait: a budget, the pause between lookups, and the message
/// that a timeout carries.
pub struct ConditionPoller {
    pub timeout_secs: u64,
    pub interval_secs: u64,
    pub timeout_message: String,
}

/// The decision of `poller` when `obs` was seen `elapsed` seconds into the wait.
pub open spec fn poll_decision(poller: ConditionPoller, elapsed: u64, obs: Observation) -> PollStep {
    match obs {
        Observation::Present => PollStep::Ready,
        Observation::QueryFailed(m) => PollStep::Stop(PollError::CommandFailed(m)),
        _ => if elapsed >= poller.timeout_secs {
            PollStep::Stop(PollError::TimedOut { waited_secs: elapsed, message: poller.timeout_message })
        } else if poller.timeout_secs - elapsed < poller.interval_secs {
            PollStep::Sleep((poller.timeout_secs - elapsed) as u64)
        } else {
            PollStep::Sleep(poller.interval_secs)
        },
    }
}

/// The message of a wait for a deployment that an operator should create.
pub open spec fn creation_timeout_message(name: Seq<char>, namespace: Seq<char>) -> Seq<char> {
    "Timeout waiting for deployment/"@ + name + " to be created in namespace "@ + namespace
        + ". The operator may not be reconciling the Kueue CR properly."@
}

/// Seconds between two lookups of a resource that is expected to appear.
pub const POLL_INTERVAL_SECS: u64 = 5;

impl ConditionPoller {
    pub open spec fn wf(&self) -> bool {
        self.interval_secs > 0
    }

    pub fn new(timeout_secs: u64, interval_secs: u64, timeout_message: String) -> (r: Self)
        requires
            interval_secs > 0,
        ensures
            r.wf(),
            r.timeout_secs == timeout_secs,
            r.interval_secs == interval_secs,
            r.timeout_message == timeout_message,
    {
        ConditionPoller { timeout_secs, interval_secs, timeout_message }
    }

    /// A wait for deployment `name` in `namespace` to be created, looked up
    /// every five seconds.
    pub fn for_deployment_creation(name: &str, namespace: &str, timeout_secs: u64) -> (r: Self)
        ensures
            r.wf(),
            r.timeout_secs == timeout_secs,
            r.interval_secs == POLL_INTERVAL_SECS,
            r.timeout_message@ == creation_timeout_message(name@, namespace@),
    {
        let mut m = String::from_str("Timeout waiting for deployment/");
        m.append(name);
        m.append(" to be created in namespace ");
        m.append(namespace);
        m.append(". The operator may not be reconciling the Kueue CR properly.");
        ConditionPoller { timeout_secs, interval_secs: POLL_INTERVAL_SECS, timeout_message: m }
    }

    /// Decides what follows an observation made `elapsed_secs` into the wait.
    pub fn next(&self, elapsed_secs: u64, obs: Observation) -> (r: PollStep)
        requires
            self.wf(),
        ensures
            r == poll_decision(*self, elapsed_secs, obs),
    {
        match obs {
            Observation::Present => PollStep::Ready,
            Observation::QueryFailed(m) => PollStep::Stop(PollError::CommandFailed(m)),
            _ => if elapsed_secs >= self.timeout_secs {
                PollStep::Stop(
                    PollError::TimedOut {
                        waited_secs: elapsed_secs,
                        message: self.timeout_message.clone(),
                    },
                )
            } else if self.timeout_secs - elapsed_secs < self.interval_secs {
                PollStep::Sleep(self.timeout_secs - elapsed_secs)
            } else {
                PollStep::Sleep(self.interval_secs)
            },
        }
    }
}

/// Reads the outcome of a lookup: success means present, an answer that names
/// absence means absent, anything else is a failed query.
pub fn classify_lookup(succeeded: bool, stderr: &str) -> (r: Observation)
    ensures
        succeeded ==> r is Present,
        !succeeded && (contains(stderr@, "NotFound"@) || contains(stderr@, "not found"@)) ==> r is Absent,
        !succeeded && !(contains(stderr@, "NotFound"@) || contains(stderr@, "not found"@)) ==> (r matches Observation::QueryFailed(m) && m@ == stderr@),
{
    if succeeded {
        Observation::Present
    } else if contains_str(stderr, "NotFound") || contains_str(stderr, "not found") {
        Observation::Absent
    } else {
        Observation::QueryFailed(String::from_str(stderr))
    }
}

/// Reads the failure of a native wait: one that reports the condition timed
/// out is a timeout, any other is a failed command.
pub fn classify_wait_failure(stderr: &str, timeout_secs: u64) -> (r: PollError)
    ensures
        contains(stderr@, "timed out"@) ==> (r matches PollError::TimedOut { waited_secs, message }
            && waited_secs == timeout_secs && message@ == stderr@),
        !contains(stderr@, "timed out"@) ==> (r matches PollError::CommandFailed(m) && m@ == stderr@),
{
    if contains_str(stderr, "timed out") {
        PollError::TimedOut { waited_secs: timeout_secs, message: String::from_str(stderr) }
    } else {
        PollError::CommandFailed(String::from_str(stderr))
    }
}

/// The elapsed time at which a poller gives up when every lookup from
/// `elapsed` on comes back absent or unanswered, lookups taking no time.
pub open spec fn absent_run_end(poller: ConditionPoller, elapsed: u64) -> u64
    decreases poller.timeout_secs - elapsed,
{
    if !poller.wf() || elapsed >= poller.timeout_secs {
        elapsed
    } else {
        match poll_decision(poller, elapsed, Observation::Absent) {
            PollStep::Sleep(d) => absent_run_end(poller, (elapsed + d) as u64),
            _ => elapsed,
        }
    }
}

/// A wait whose lookups never find the resource, or never answer, ends in a
/// timeout and never in a failed command; it gives up exactly when the budget
/// is spent, and every pause before that keeps within the budget.
pub proof fn lemma_timeout_distinguishable(poller: ConditionPoller, elapsed: u64)
    requires
        poller.wf(),
        elapsed <= poller.timeout_secs,
    ensures
        absent_run_end(poller, elapsed) == poller.timeout_secs,
        poll_decision(poller, poller.timeout_secs, Observation::Absent) matches PollStep::Stop(
            PollError::TimedOut { waited_secs, message },
        ) && waited_secs == poller.timeout_secs,
        poll_decision(poller, poller.timeout_secs, Observation::NoAnswer) matches PollStep::Stop(
            PollError::TimedOut { waited_secs, message },
        ) && waited_secs == poller.timeout_secs,
        elapsed < poller.timeout_secs ==> (poll_decision(poller, elapsed, Observation::Absent) matches PollStep::Sleep(d)
            && 0 < d && elapsed + d <= poller.timeout_secs),
        elapsed < poller.timeout_secs ==> poll_decision(poller, elapsed, Observation::NoAnswer)
            == poll_decision(poller, elapsed, Observation::Absent),
    decreases poller.timeout_secs - elapsed,
{
    if elapsed < poller.timeout_secs {
        match poll_decision(poller, elapsed, Observation::Absent) {
            PollStep::Sleep(d) => {
                lemma_timeout_distinguishable(poller, (elapsed + d) as u64);
            },
            _ => {},
        }
    }
}

} // verus!
