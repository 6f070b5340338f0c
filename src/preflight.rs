//! Checks made before a deployment, and the verdict they give.
use vstd::prelude::*;
use crate::text::{contains, contains_str, decimal, decimal_string, lines_of, split_lines, views};

verus! {

/// The outcome of one check.
pub enum CheckResult {
    Pass(String),
    Warn(String),
    Fail(String),
}

impl CheckResult {
    pub fn is_error(&self) -> (r: bool)
        ensures
            r == (*self is Fail),
    {
        match self {
            CheckResult::Fail(_) => true,
            _ => false,
        }
    }

    pub fn is_warning(&self) -> (r: bool)
        ensures
            r == (*self is Warn),
    {
        match self {
            CheckResult::Warn(_) => true,
            _ => false,
        }
    }
}

/// How many of `checks` failed.
pub open spec fn count_errors(checks: Seq<CheckResult>) -> nat
    decreases checks.len(),
{
    if checks.len() == 0 {
        0
    } else {
        count_errors(checks.drop_last()) + (if checks.last() is Fail { 1nat } else { 0nat })
    }
}

/// How many of `checks` warned.
pub open spec fn count_warnings(checks: Seq<CheckResult>) -> nat
    decreases checks.len(),
{
    if checks.len() == 0 {
        0
    } else {
        count_warnings(checks.drop_last()) + (if checks.last() is Warn { 1nat } else { 0nat })
    }
}

proof fn lemma_counts_bounded(checks: Seq<CheckResult>)
    ensures
        count_errors(checks) <= checks.len(),
        count_warnings(checks) <= checks.len(),
    decreases checks.len(),
{
    if checks.len() > 0 {
        lemma_counts_bounded(checks.drop_last());
    }
}

/// The checks made so far.
pub struct PreflightChecker {
    pub checks: Vec<CheckResult>,
}

impl PreflightChecker {
    pub fn new() -> (r: Self)
        ensures
            r.checks@.len() == 0,
    {
        PreflightChecker { checks: Vec::new() }
    }

    /// Records the outcome of a check.
    pub fn record(&mut self, c: CheckResult)
        ensures
            final(self).checks@ == old(self).checks@.push(c),
    {
        self.checks.push(c);
    }

    /// How many checks failed.
    pub fn errors(&self) -> (r: usize)
        ensures
            r == count_errors(self.checks@),
    {
        let mut n: usize = 0;
        let mut i: usize = 0;
        while i < self.checks.len()
            invariant
                i <= self.checks@.len(),
                n == count_errors(self.checks@.take(i as int)),
            decreases self.checks@.len() - i,
        {
            assert(self.checks@.take(i + 1).drop_last() =~= self.checks@.take(i as int));
            proof {
                lemma_counts_bounded(self.checks@.take(i as int));
            }
            if self.checks[i].is_error() {
                n += 1;
            }
            i += 1;
        }
        assert(self.checks@.take(self.checks@.len() as int) =~= self.checks@);
        n
    }

    /// How many checks warned.
    pub fn warnings(&self) -> (r: usize)
        ensures
            r == count_warnings(self.checks@),
    {
        let mut n: usize = 0;
        let mut i: usize = 0;
        while i < self.checks.len()
            invariant
                i <= self.checks@.len(),
                n == count_warnings(self.checks@.take(i as int)),
            decreases self.checks@.len() - i,
        {
            assert(self.checks@.take(i + 1).drop_last() =~= self.checks@.take(i as int));
            proof {
                lemma_counts_bounded(self.checks@.take(i as int));
            }
            if self.checks[i].is_warning() {
                n += 1;
            }
            i += 1;
        }
        assert(self.checks@.take(self.checks@.len() as int) =~= self.checks@);
        n
    }

    /// Whether the deployment may go on, and the summary line to show: it may
    /// unless a check failed.
    pub fn display_results(&self) -> (r: (bool, String))
        ensures
            r.0 == (count_errors(self.checks@) == 0),
            count_errors(self.checks@) > 0 ==> r.1@ == decimal(count_errors(self.checks@)) + " error(s), "@ + decimal(
                count_warnings(self.checks@),
            ) + " warning(s)"@,
            count_errors(self.checks@) == 0 && count_warnings(self.checks@) > 0 ==> r.1@ == decimal(
                count_warnings(self.checks@),
            ) + " warning(s). Deployment may continue but proceed with caution."@,
            count_errors(self.checks@) == 0 && count_warnings(self.checks@) == 0 ==> r.1@ == "All checks passed!"@,
    {
        let errors = self.errors();
        let warnings = self.warnings();
        if errors > 0 {
            let mut m = decimal_string(errors);
            m.append(" error(s), ");
            let w = decimal_string(warnings);
            m.append(w.as_str());
            m.append(" warning(s)");
            (false, m)
        } else if warnings > 0 {
            let mut m = decimal_string(warnings);
            m.append(" warning(s). Deployment may continue but proceed with caution.");
            (true, m)
        } else {
            (true, String::from_str("All checks passed!"))
        }
    }

    /// Whether the deployment may go on: it may unless a check failed.
    pub fn should_continue(&self) -> (r: bool)
        ensures
            r == (count_errors(self.checks@) == 0),
    {
        self.errors() == 0
    }
}

impl Default for PreflightChecker {
    fn default() -> (r: Self)
        ensures
            r.checks@.len() == 0,
    {
        Self::new()
    }
}

/// The number of non-empty lines of a node listing.
pub open spec fn count_nonempty(lines: Seq<Seq<char>>) -> nat
    decreases lines.len(),
{
    if lines.len() == 0 {
        0
    } else {
        count_nonempty(lines.drop_last()) + (if lines.last().len() > 0 { 1nat } else { 0nat })
    }
}

proof fn lemma_count_nonempty_bounded(lines: Seq<Seq<char>>)
    ensures
        count_nonempty(lines) <= lines.len(),
    decreases lines.len(),
{
    if lines.len() > 0 {
        lemma_count_nonempty_bounded(lines.drop_last());
    }
}

/// Counts the nodes of a listing, one a line.
pub fn count_nodes(listing: &str) -> (r: usize)
    ensures
        r == count_nonempty(lines_of(listing@)),
{
    let lines = split_lines(listing);
    let mut n: usize = 0;
    let mut i: usize = 0;
    while i < lines.len()
        invariant
            views(lines@) == lines_of(listing@),
            i <= lines@.len(),
            n == count_nonempty(views(lines@).take(i as int)),
        decreases lines@.len() - i,
    {
        assert(views(lines@).take(i + 1).drop_last() =~= views(lines@).take(i as int));
        assert(views(lines@).take(i + 1).last() == lines@[i as int]@);
        proof {
            lemma_count_nonempty_bounded(views(lines@).take(i as int));
        }
        if !lines[i].as_str().is_empty() {
            n += 1;
        }
        i += 1;
    }
    assert(views(lines@).take(lines@.len() as int) =~= views(lines@));
    n
}

/// The fewest nodes recommended for the tests.
pub const RECOMMENDED_NODES: usize = 2;

/// The verdict on the node count: at least two pass, fewer warn, and a
/// listing that could not be had warns too.
pub fn node_count_check(listed: bool, node_count: usize) -> (r: CheckResult)
    ensures
        listed && node_count >= RECOMMENDED_NODES ==> (r matches CheckResult::Pass(m) && m@ == "Cluster has "@ + decimal(
            node_count as nat,
        ) + " nodes (recommended: >= 2)"@),
        listed && node_count < RECOMMENDED_NODES ==> (r matches CheckResult::Warn(m) && m@ == "Cluster has only "@
            + decimal(node_count as nat) + " node(s), recommended: >= 2"@),
        !listed ==> (r matches CheckResult::Warn(m) && m@ == "Could not count cluster nodes"@),
{
    if !listed {
        return CheckResult::Warn(String::from_str("Could not count cluster nodes"));
    }
    let count = decimal_string(node_count);
    if node_count >= RECOMMENDED_NODES {
        let mut m = String::from_str("Cluster has ");
        m.append(count.as_str());
        m.append(" nodes (recommended: >= 2)");
        CheckResult::Pass(m)
    } else {
        let mut m = String::from_str("Cluster has only ");
        m.append(count.as_str());
        m.append(" node(s), recommended: >= 2");
        CheckResult::Warn(m)
    }
}

/// The verdict on the cluster's version, from the client's report: a report
/// that names a 1.x version passes, with its first line; otherwise it warns.
pub fn version_check(reported: bool, output: &str) -> (r: CheckResult)
    ensures
        reported && contains(output@, "v1."@) ==> (r matches CheckResult::Pass(m) && m@
            == "Kubernetes version compatible: "@ + (if lines_of(output@).len() > 0 {
            lines_of(output@)[0]
        } else {
            "unknown"@
        })),
        reported && !contains(output@, "v1."@) ==> (r matches CheckResult::Warn(m) && m@
            == "Could not determine Kubernetes version"@),
        !reported ==> (r matches CheckResult::Warn(m) && m@ == "Could not check Kubernetes version"@),
{
    if !reported {
        return CheckResult::Warn(String::from_str("Could not check Kubernetes version"));
    }
    if !contains_str(output, "v1.") {
        return CheckResult::Warn(String::from_str("Could not determine Kubernetes version"));
    }
    let lines = split_lines(output);
    let mut m = String::from_str("Kubernetes version compatible: ");
    if lines.len() > 0 {
        assert(lines_of(output@)[0] == lines@[0]@);
        m.append(lines[0].as_str());
    } else {
        m.append("unknown");
    }
    CheckResult::Pass(m)
}

/// The verdict on resource metrics: without them it only warns.
pub fn resources_check(available: bool) -> (r: CheckResult)
    ensures
        available ==> (r matches CheckResult::Pass(m) && m@ == "Cluster resource metrics available"@),
        !available ==> (r matches CheckResult::Warn(m) && m@
            == "Could not check cluster resources (metrics-server may not be installed)"@),
{
    if available {
        CheckResult::Pass(String::from_str("Cluster resource metrics available"))
    } else {
        CheckResult::Warn(
            String::from_str("Could not check cluster resources (metrics-server may not be installed)"),
        )
    }
}

/// The verdict on reaching the cluster: failing to is an error.
pub fn connection_check(reachable: bool) -> (r: CheckResult)
    ensures
        reachable ==> (r matches CheckResult::Pass(m) && m@ == "Cluster is reachable"@),
        !reachable ==> (r matches CheckResult::Fail(m) && m@ == "Cannot connect to cluster"@),
{
    if reachable {
        CheckResult::Pass(String::from_str("Cluster is reachable"))
    } else {
        CheckResult::Fail(String::from_str("Cannot connect to cluster"))
    }
}

/// The verdict on an earlier installation: finding one warns that it will be replaced.
pub fn existing_installation_check(found: bool) -> (r: CheckResult)
    ensures
        found ==> (r matches CheckResult::Warn(m) && m@ == "Existing kueue installation detected (will be replaced)"@),
        !found ==> (r matches CheckResult::Pass(m) && m@ == "No existing kueue installation found"@),
{
    if found {
        CheckResult::Warn(String::from_str("Existing kueue installation detected (will be replaced)"))
    } else {
        CheckResult::Pass(String::from_str("No existing kueue installation found"))
    }
}

/// The verdict on a custom resource definition: a missing one warns, as it
/// will be created.
pub fn crd_check(crd: &str, exists: bool) -> (r: CheckResult)
    ensures
        exists ==> (r matches CheckResult::Pass(m) && m@ == "CRD "@ + crd@ + " exists"@),
        !exists ==> (r matches CheckResult::Warn(m) && m@ == "CRD "@ + crd@ + " not found (will be created)"@),
{
    let mut m = String::from_str("CRD ");
    m.append(crd);
    if exists {
        m.append(" exists");
        CheckResult::Pass(m)
    } else {
        m.append(" not found (will be created)");
        CheckResult::Warn(m)
    }
}

} // verus!
