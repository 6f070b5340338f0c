//! Joining tasks that ran side by side: every failure is kept, in the order
//! in which the tasks were started.
use vstd::prelude::*;

verus! {

/// How one task ended.
pub struct TaskResult {
    pub name: String,
    pub outcome: Result<(), String>,
}

/// A task that failed, and why.
pub struct TaskFailure {
    pub name: String,
    pub message: String,
}

/// The failures of one fan-out, in the order in which the tasks were started.
pub struct AggregatedError {
    pub failures: Vec<TaskFailure>,
}

/// The failures among `results`, in order.
pub open spec fn failures_of(results: Seq<TaskResult>) -> Seq<TaskFailure>
    decreases results.len(),
{
    if results.len() == 0 {
        Seq::empty()
    } else {
        let before = failures_of(results.drop_last());
        match results.last().outcome {
            Ok(_) => before,
            Err(m) => before.push(TaskFailure { name: results.last().name, message: m }),
        }
    }
}

/// The text that a task which panicked reports.
pub open spec fn panic_message(name: Seq<char>) -> Seq<char> {
    name + " thread panicked"@
}

impl TaskResult {
    /// The result of a task that panicked instead of returning.
    pub fn panicked(name: &str) -> (r: Self)
        ensures
            r.name@ == name@,
            r.outcome matches Err(m) && m@ == panic_message(name@),
    {
        let mut m = String::from_str(name);
        m.append(" thread panicked");
        TaskResult { name: String::from_str(name), outcome: Err(m) }
    }
}

/// Every task that failed is a failure here, and only those.
proof fn lemma_failures_none(results: Seq<TaskResult>)
    ensures
        failures_of(results).len() == 0 <==> forall|i: int| 0 <= i < results.len() ==> (#[trigger] results[i]).outcome is Ok,
    decreases results.len(),
{
    if results.len() > 0 {
        lemma_failures_none(results.drop_last());
        if failures_of(results).len() == 0 {
            assert forall|i: int| 0 <= i < results.len() implies (#[trigger] results[i]).outcome is Ok by {
                if i < results.len() - 1 {
                    assert(results.drop_last()[i] == results[i]);
                }
            }
        } else {
            if forall|i: int| 0 <= i < results.len() ==> (#[trigger] results[i]).outcome is Ok {
                assert forall|i: int| 0 <= i < results.drop_last().len() implies (#[trigger] results.drop_last()[i]).outcome is Ok by {
                    assert(results.drop_last()[i] == results[i]);
                }
                assert(results[results.len() - 1].outcome is Ok);
            }
        }
    }
}

/// Joins the results of a fan-out: success when every task succeeded, and
/// otherwise every failure, in the order in which the tasks were started.
pub fn aggregate(results: &Vec<TaskResult>) -> (r: Result<(), AggregatedError>)
    ensures
        r is Ok <==> forall|i: int| 0 <= i < results@.len() ==> (#[trigger] results@[i]).outcome is Ok,
        r matches Err(e) ==> e.failures@ == failures_of(results@),
{
    let mut failures: Vec<TaskFailure> = Vec::new();
    let mut i: usize = 0;
    while i < results.len()
        invariant
            i <= results@.len(),
            failures@ == failures_of(results@.take(i as int)),
        decreases results@.len() - i,
    {
        assert(results@.take(i + 1).drop_last() == results@.take(i as int));
        match &results[i].outcome {
            Ok(_) => {},
            Err(m) => {
                failures.push(TaskFailure { name: results[i].name.clone(), message: m.clone() });
            },
        }
        i += 1;
    }
    assert(results@.take(results@.len() as int) == results@);
    proof {
        lemma_failures_none(results@);
    }
    if failures.len() == 0 {
        Ok(())
    } else {
        Err(AggregatedError { failures })
    }
}

/// One line per failure: the task's name, a colon, and its message.
pub open spec fn describe_failures(failures: Seq<TaskFailure>) -> Seq<char>
    decreases failures.len(),
{
    if failures.len() == 0 {
        Seq::empty()
    } else {
        describe_failures(failures.drop_last()) + failures.last().name@ + ": "@ + failures.last().message@ + "\n"@
    }
}

impl AggregatedError {
    /// The failures as text, one line each.
    pub fn describe(&self) -> (r: String)
        ensures
            r@ == describe_failures(self.failures@),
    {
        let mut s = String::new();
        let mut i: usize = 0;
        while i < self.failures.len()
            invariant
                i <= self.failures@.len(),
                s@ == describe_failures(self.failures@.take(i as int)),
            decreases self.failures@.len() - i,
        {
            assert(self.failures@.take(i + 1).drop_last() == self.failures@.take(i as int));
            s.append(self.failures[i].name.as_str());
            s.append(": ");
            s.append(self.failures[i].message.as_str());
            s.append("\n");
            i += 1;
        }
        assert(self.failures@.take(self.failures@.len() as int) == self.failures@);
        s
    }
}

} // verus!
