//! Installing the operator bundle, with one retry for a known conflict: a
//! catalog left behind by an earlier install. Only that conflict is retried,
//! after a cleanup; any other failure ends the install at once.
//!
//! Like the dependency installer, this is a state machine whose actions the
//! caller performs.
use vstd::prelude::*;
use crate::text::{contains, contains_str};

verus! {

/// The text by which a failed attempt shows that the install conflicts with
/// one left behind.
pub open spec fn conflict_signature() -> Seq<char> {
    "already exists"@
}

/// Seconds to let a cleanup settle before the second attempt.
pub const SETTLE_AFTER_CLEANUP_SECS: u64 = 3;

/// Where a bundle install stands.
pub enum BundlePhase {
    /// Looking for the catalog that an earlier install left behind.
    CheckingCatalog,
    FirstAttempt,
    CleaningUp,
    /// Letting the cleanup settle; `cleanup_error` is what it reported, if it failed.
    Settling { cleanup_error: Option<String> },
    SecondAttempt { cleanup_error: Option<String> },
    Finished,
}

/// A failed bundle install.
pub enum BundleError {
    /// The first attempt failed, and not for the known conflict.
    Failed(String),
    /// The attempt after the cleanup failed too; the cleanup's own failure, if
    /// any, is kept beside it.
    FailedAfterCleanup { cleanup_error: Option<String>, message: String },
}

/// The text of a failed bundle install: the attempt's output and, after a
/// cleanup, how the cleanup went.
pub open spec fn bundle_error_text(e: BundleError) -> Seq<char> {
    match e {
        BundleError::Failed(m) => "operator-sdk run bundle failed:\n"@ + m@,
        BundleError::FailedAfterCleanup { cleanup_error, message } => "operator-sdk run bundle failed after cleanup (cleanup: "@
            + (match cleanup_error {
            Some(c) => c@,
            None => "succeeded"@,
        }) + "):\n"@ + message@,
    }
}

impl BundleError {
    /// The error as text.
    pub fn describe(&self) -> (r: String)
        ensures
            r@ == bundle_error_text(*self),
    {
        match self {
            BundleError::Failed(m) => {
                let mut s = String::from_str("operator-sdk run bundle failed:\n");
                s.append(m.as_str());
                s
            },
            BundleError::FailedAfterCleanup { cleanup_error, message } => {
                let mut s = String::from_str("operator-sdk run bundle failed after cleanup (cleanup: ");
                match cleanup_error {
                    Some(c) => s.append(c.as_str()),
                    None => s.append("succeeded"),
                }
                s.append("):\n");
                s.append(message.as_str());
                s
            },
        }
    }
}

/// What the bundle installer asks the caller to do next.
pub enum BundleAction {
    /// Look up the catalog source; reply `Ok` if it exists.
    QueryCatalog,
    /// Run the bundle install; this is attempt 1 or 2. Reply `Err` with its
    /// output if it fails.
    RunBundle(u8),
    /// Remove what an earlier install left behind.
    Cleanup,
    /// Sleep this many seconds.
    Settle(u64),
    Finish(Result<(), BundleError>),
    Idle,
}

/// One step of the bundle installer.
pub open spec fn bundle_step(phase: BundlePhase, reply: Result<String, String>) -> (BundlePhase, BundleAction) {
    match phase {
        BundlePhase::CheckingCatalog => match reply {
            Ok(_) => (BundlePhase::CleaningUp, BundleAction::Cleanup),
            Err(_) => (BundlePhase::FirstAttempt, BundleAction::RunBundle(1)),
        },
        BundlePhase::FirstAttempt => match reply {
            Ok(_) => (BundlePhase::Finished, BundleAction::Finish(Ok(()))),
            Err(m) => if contains(m@, conflict_signature()) {
                (BundlePhase::CleaningUp, BundleAction::Cleanup)
            } else {
                (BundlePhase::Finished, BundleAction::Finish(Err(BundleError::Failed(m))))
            },
        },
        BundlePhase::CleaningUp => (
            BundlePhase::Settling {
                cleanup_error: match reply {
                    Ok(_) => None,
                    Err(c) => Some(c),
                },
            },
            BundleAction::Settle(SETTLE_AFTER_CLEANUP_SECS),
        ),
        BundlePhase::Settling { cleanup_error } => (
            BundlePhase::SecondAttempt { cleanup_error },
            BundleAction::RunBundle(2),
        ),
        BundlePhase::SecondAttempt { cleanup_error } => match reply {
            Ok(_) => (BundlePhase::Finished, BundleAction::Finish(Ok(()))),
            Err(m) => (
                BundlePhase::Finished,
                BundleAction::Finish(Err(BundleError::FailedAfterCleanup { cleanup_error, message: m })),
            ),
        },
        BundlePhase::Finished => (BundlePhase::Finished, BundleAction::Idle),
    }
}

/// The namespace the operator is installed in, applied before the bundle.
pub open spec fn operator_namespace_manifest() -> Seq<char> {
    "apiVersion: v1\nkind: Namespace\nmetadata:\n  name: openshift-kueue-operator\n"@
}

/// The start of a bundle install: the namespace to apply first, then the
/// first phase and action of the install.
pub fn install_bundle() -> (r: (String, BundlePhase, BundleAction))
    ensures
        r.0@ == operator_namespace_manifest(),
        r.1 is CheckingCatalog,
        r.2 is QueryCatalog,
{
    let ns = String::from_str("apiVersion: v1\nkind: Namespace\nmetadata:\n  name: openshift-kueue-operator\n");
    let (p, a) = bundle_start();
    (ns, p, a)
}

/// The first phase and action of a bundle install.
pub fn bundle_start() -> (r: (BundlePhase, BundleAction))
    ensures
        r.0 is CheckingCatalog,
        r.1 is QueryCatalog,
{
    (BundlePhase::CheckingCatalog, BundleAction::QueryCatalog)
}

/// Advances a bundle install on the reply to its last action.
pub fn bundle_next(phase: BundlePhase, reply: Result<String, String>) -> (r: (BundlePhase, BundleAction))
    ensures
        r == bundle_step(phase, reply),
{
    match phase {
        BundlePhase::CheckingCatalog => match reply {
            Ok(_) => (BundlePhase::CleaningUp, BundleAction::Cleanup),
            Err(_) => (BundlePhase::FirstAttempt, BundleAction::RunBundle(1)),
        },
        BundlePhase::FirstAttempt => match reply {
            Ok(_) => (BundlePhase::Finished, BundleAction::Finish(Ok(()))),
            Err(m) => if contains_str(m.as_str(), "already exists") {
                (BundlePhase::CleaningUp, BundleAction::Cleanup)
            } else {
                (BundlePhase::Finished, BundleAction::Finish(Err(BundleError::Failed(m))))
            },
        },
        BundlePhase::CleaningUp => {
            let cleanup_error = match reply {
                Ok(_) => None,
                Err(c) => Some(c),
            };
            (BundlePhase::Settling { cleanup_error }, BundleAction::Settle(SETTLE_AFTER_CLEANUP_SECS))
        },
        BundlePhase::Settling { cleanup_error } => (
            BundlePhase::SecondAttempt { cleanup_error },
            BundleAction::RunBundle(2),
        ),
        BundlePhase::SecondAttempt { cleanup_error } => match reply {
            Ok(_) => (BundlePhase::Finished, BundleAction::Finish(Ok(()))),
            Err(m) => (
                BundlePhase::Finished,
                BundleAction::Finish(Err(BundleError::FailedAfterCleanup { cleanup_error, message: m })),
            ),
        },
        BundlePhase::Finished => (BundlePhase::Finished, BundleAction::Idle),
    }
}

/// The actions that a bundle install asks for from `phase`, given the replies.
pub open spec fn bundle_trace(phase: BundlePhase, replies: Seq<Result<String, String>>) -> Seq<BundleAction>
    decreases replies.len(),
{
    if replies.len() == 0 {
        Seq::empty()
    } else {
        let (next, action) = bundle_step(phase, replies[0]);
        seq![action] + bundle_trace(next, replies.drop_first())
    }
}

/// How many install attempts a sequence of actions holds.
pub open spec fn attempts_in(tr: Seq<BundleAction>) -> nat
    decreases tr.len(),
{
    if tr.len() == 0 {
        0
    } else {
        (if tr[0] is RunBundle { 1nat } else { 0nat }) + attempts_in(tr.drop_first())
    }
}

/// How many cleanups a sequence of actions holds.
pub open spec fn cleanups_in(tr: Seq<BundleAction>) -> nat
    decreases tr.len(),
{
    if tr.len() == 0 {
        0
    } else {
        (if tr[0] is Cleanup { 1nat } else { 0nat }) + cleanups_in(tr.drop_first())
    }
}

/// How many more attempts may follow from a phase.
pub open spec fn attempts_left(phase: BundlePhase) -> nat {
    match phase {
        BundlePhase::CheckingCatalog => 2,
        BundlePhase::FirstAttempt => 1,
        BundlePhase::CleaningUp => 1,
        BundlePhase::Settling { .. } => 1,
        _ => 0,
    }
}

/// How many more cleanups may follow from a phase.
pub open spec fn cleanups_left(phase: BundlePhase) -> nat {
    match phase {
        BundlePhase::CheckingCatalog => 1,
        BundlePhase::FirstAttempt => 1,
        _ => 0,
    }
}

proof fn lemma_counts_of_prefixed(a: BundleAction, rest: Seq<BundleAction>)
    ensures
        attempts_in(seq![a] + rest) == (if a is RunBundle { 1nat } else { 0nat }) + attempts_in(rest),
        cleanups_in(seq![a] + rest) == (if a is Cleanup { 1nat } else { 0nat }) + cleanups_in(rest),
{
    let s = seq![a] + rest;
    assert(s.drop_first() == rest);
}

/// Whatever the replies, a bundle install makes at most two attempts and at
/// most one cleanup.
pub proof fn lemma_retry_bounded(phase: BundlePhase, replies: Seq<Result<String, String>>)
    ensures
        attempts_in(bundle_trace(phase, replies)) <= attempts_left(phase),
        cleanups_in(bundle_trace(phase, replies)) <= cleanups_left(phase),
    decreases replies.len(),
{
    if replies.len() > 0 {
        let (next, action) = bundle_step(phase, replies[0]);
        lemma_retry_bounded(next, replies.drop_first());
        lemma_counts_of_prefixed(action, bundle_trace(next, replies.drop_first()));
    }
}

/// When no catalog is left behind and every attempt fails with the conflict,
/// the install makes exactly two attempts and one cleanup, and then fails
/// keeping the second attempt's output.
pub proof fn lemma_conflict_retried_once(replies: Seq<Result<String, String>>)
    requires
        replies.len() >= 5,
        replies[0] is Err,
        replies[1] matches Err(m) && contains(m@, conflict_signature()),
        replies[4] is Err,
    ensures
        attempts_in(bundle_trace(BundlePhase::CheckingCatalog, replies)) == 2,
        cleanups_in(bundle_trace(BundlePhase::CheckingCatalog, replies)) == 1,
        bundle_trace(BundlePhase::CheckingCatalog, replies)[4] matches BundleAction::Finish(
            Err(BundleError::FailedAfterCleanup { message, .. }),
        ) && message == replies[4]->Err_0,
{
    let r1 = replies.drop_first();
    let r2 = r1.drop_first();
    let r3 = r2.drop_first();
    let r4 = r3.drop_first();
    let r5 = r4.drop_first();
    let c = match replies[2] {
        Ok(_) => None,
        Err(e) => Some(e),
    };
    let t5 = bundle_trace(BundlePhase::Finished, r5);
    lemma_retry_bounded(BundlePhase::Finished, r5);
    let t4 = bundle_trace(BundlePhase::SecondAttempt { cleanup_error: c }, r4);
    let t3 = bundle_trace(BundlePhase::Settling { cleanup_error: c }, r3);
    let t2 = bundle_trace(BundlePhase::CleaningUp, r2);
    let t1 = bundle_trace(BundlePhase::FirstAttempt, r1);
    let t0 = bundle_trace(BundlePhase::CheckingCatalog, replies);
    lemma_counts_of_prefixed(t4[0], t5);
    lemma_counts_of_prefixed(t3[0], t4);
    lemma_counts_of_prefixed(t2[0], t3);
    lemma_counts_of_prefixed(t1[0], t2);
    lemma_counts_of_prefixed(t0[0], t1);
    assert(t0[4] == t4[0]);
}

/// When a catalog is left behind, finding it stands for the first attempt's
/// conflict: the install cleans up once and makes its one real attempt.
pub proof fn lemma_leftover_catalog_cleaned_once(replies: Seq<Result<String, String>>)
    requires
        replies.len() >= 4,
        replies[0] is Ok,
    ensures
        attempts_in(bundle_trace(BundlePhase::CheckingCatalog, replies)) == 1,
        cleanups_in(bundle_trace(BundlePhase::CheckingCatalog, replies)) == 1,
        bundle_trace(BundlePhase::CheckingCatalog, replies)[2] == BundleAction::RunBundle(2),
        replies[3] is Ok ==> bundle_trace(BundlePhase::CheckingCatalog, replies)[3] == BundleAction::Finish(Ok(())),
{
    let r1 = replies.drop_first();
    let r2 = r1.drop_first();
    let r3 = r2.drop_first();
    let r4 = r3.drop_first();
    let c = match replies[1] {
        Ok(_) => None,
        Err(e) => Some(e),
    };
    let t4 = bundle_trace(BundlePhase::Finished, r4);
    lemma_retry_bounded(BundlePhase::Finished, r4);
    let t3 = bundle_trace(BundlePhase::SecondAttempt { cleanup_error: c }, r3);
    let t2 = bundle_trace(BundlePhase::Settling { cleanup_error: c }, r2);
    let t1 = bundle_trace(BundlePhase::CleaningUp, r1);
    let t0 = bundle_trace(BundlePhase::CheckingCatalog, replies);
    lemma_counts_of_prefixed(t3[0], t4);
    lemma_counts_of_prefixed(t2[0], t3);
    lemma_counts_of_prefixed(t1[0], t2);
    lemma_counts_of_prefixed(t0[0], t1);
    assert(t0[2] == t2[0]);
    assert(t0[3] == t3[0]);
}

/// A first attempt that fails for any reason but the conflict ends the
/// install with that failure: no cleanup, and no second attempt.
pub proof fn lemma_other_failure_terminal(replies: Seq<Result<String, String>>)
    requires
        replies.len() >= 2,
        replies[0] is Err,
        replies[1] matches Err(m) && !contains(m@, conflict_signature()),
    ensures
        attempts_in(bundle_trace(BundlePhase::CheckingCatalog, replies)) == 1,
        cleanups_in(bundle_trace(BundlePhase::CheckingCatalog, replies)) == 0,
        bundle_trace(BundlePhase::CheckingCatalog, replies)[1] matches BundleAction::Finish(Err(BundleError::Failed(m)))
            && m == replies[1]->Err_0,
{
    let r1 = replies.drop_first();
    let r2 = r1.drop_first();
    let t2 = bundle_trace(BundlePhase::Finished, r2);
    lemma_retry_bounded(BundlePhase::Finished, r2);
    let t1 = bundle_trace(BundlePhase::FirstAttempt, r1);
    let t0 = bundle_trace(BundlePhase::CheckingCatalog, replies);
    lemma_counts_of_prefixed(t1[0], t2);
    lemma_counts_of_prefixed(t0[0], t1);
}

} // verus!
