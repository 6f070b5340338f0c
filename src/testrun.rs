//! Running the end-to-end tests: the pattern of tests to skip, and the
//! manual retry loop that keeps the cluster up for debugging until the tests
//! pass.
use vstd::prelude::*;
use crate::deploy::PlanOptions;
use crate::text::{contains, contains_str, trim, trim_blanks, views};

verus! {

/// The options of a test run on a kind cluster.
pub struct TestKindOptions {
    pub cluster_name: String,
    pub focus: Option<String>,
    pub label_filter: Option<String>,
    pub images_file: String,
    pub skip_kueue_cr: bool,
    pub kueue_frameworks: Option<String>,
    pub kueue_namespace: Option<String>,
}

/// The patterns joined by `|`.
pub open spec fn joined(ps: Seq<Seq<char>>) -> Seq<char>
    decreases ps.len(),
{
    if ps.len() == 0 {
        Seq::empty()
    } else if ps.len() == 1 {
        ps[0]
    } else {
        joined(ps.drop_last()) + "|"@ + ps.last()
    }
}

/// The skip expression for a list of patterns: empty for none, else the
/// patterns as alternatives in parentheses.
pub open spec fn skip_pattern(ps: Seq<Seq<char>>) -> Seq<char> {
    if ps.len() == 0 {
        Seq::empty()
    } else {
        "("@ + joined(ps) + ")"@
    }
}

/// Builds the expression of tests to skip.
pub fn generate_skip_pattern(patterns: &Vec<String>) -> (r: String)
    ensures
        r@ == skip_pattern(views(patterns@)),
{
    if patterns.len() == 0 {
        return String::new();
    }
    let mut s = String::from_str("(");
    let mut i: usize = 0;
    while i < patterns.len()
        invariant
            i <= patterns@.len(),
            s@ == "("@ + joined(views(patterns@).take(i as int)),
        decreases patterns@.len() - i,
    {
        let ghost t = views(patterns@).take(i + 1);
        assert(t.drop_last() =~= views(patterns@).take(i as int));
        assert(t.last() == patterns@[i as int]@);
        if i > 0 {
            s.append("|");
        } else {
            assert(t.len() == 1 && t[0] == patterns@[0]@);
        }
        s.append(patterns[i].as_str());
        assert(s@ =~= "("@ + joined(t));
        i += 1;
    }
    assert(views(patterns@).take(patterns@.len() as int) =~= views(patterns@));
    s.append(")");
    s
}

/// Where a test run stands.
#[derive(Debug, Clone, Copy, PartialEq, Eq, Structural)]
pub enum TestRunPhase {
    Running,
    /// The tests failed; waiting for the user to ask for another run.
    AwaitingRetry,
    Finished,
}

/// What happened since the last action.
pub enum TestRunEvent {
    Passed,
    Failed(String),
    /// The user asked to run the tests again.
    RetryRequested,
    /// The user gave up.
    Cancelled,
}

/// Why a test run ended without the tests passing.
#[derive(Debug, Clone, Copy, PartialEq, Eq, Structural)]
pub enum TestRunError {
    /// The user gave up after a failure.
    Cancelled,
}

/// What the test runner asks the caller to do next.
pub enum TestRunAction {
    RunTests,
    /// Report this failure and wait for the user.
    ReportFailure(String),
    Finish(Result<(), TestRunError>),
    /// The event does not fit the phase: nothing to do, nothing changes.
    Ignore,
}

/// One step of the test runner.
pub open spec fn test_run_step(phase: TestRunPhase, event: TestRunEvent) -> (TestRunPhase, TestRunAction) {
    match (phase, event) {
        (TestRunPhase::Running, TestRunEvent::Passed) => (TestRunPhase::Finished, TestRunAction::Finish(Ok(()))),
        (TestRunPhase::Running, TestRunEvent::Failed(m)) => (TestRunPhase::AwaitingRetry, TestRunAction::ReportFailure(m)),
        (TestRunPhase::AwaitingRetry, TestRunEvent::RetryRequested) => (TestRunPhase::Running, TestRunAction::RunTests),
        (TestRunPhase::AwaitingRetry, TestRunEvent::Cancelled) => (
            TestRunPhase::Finished,
            TestRunAction::Finish(Err(TestRunError::Cancelled)),
        ),
        (p, _) => (p, TestRunAction::Ignore),
    }
}

/// The first phase and action of a test run.
pub fn test_run_start() -> (r: (TestRunPhase, TestRunAction))
    ensures
        r.0 == TestRunPhase::Running,
        r.1 is RunTests,
{
    (TestRunPhase::Running, TestRunAction::RunTests)
}

/// Advances a test run: a pass ends it, a failure is reported and waits for
/// the user, who may ask for another run or give up.
pub fn run_tests_with_retry(phase: TestRunPhase, event: TestRunEvent) -> (r: (TestRunPhase, TestRunAction))
    ensures
        r == test_run_step(phase, event),
{
    match (phase, event) {
        (TestRunPhase::Running, TestRunEvent::Passed) => (TestRunPhase::Finished, TestRunAction::Finish(Ok(()))),
        (TestRunPhase::Running, TestRunEvent::Failed(m)) => (TestRunPhase::AwaitingRetry, TestRunAction::ReportFailure(m)),
        (TestRunPhase::AwaitingRetry, TestRunEvent::RetryRequested) => (TestRunPhase::Running, TestRunAction::RunTests),
        (TestRunPhase::AwaitingRetry, TestRunEvent::Cancelled) => (
            TestRunPhase::Finished,
            TestRunAction::Finish(Err(TestRunError::Cancelled)),
        ),
        (p, _) => (p, TestRunAction::Ignore),
    }
}

/// The arguments of a ginkgo run: the label filter (by default, no
/// disruptive test), the skip expression when there is one, the focus when
/// given, and the test directory.
pub open spec fn ginkgo_args_of(focus: Option<Seq<char>>, label_filter: Option<Seq<char>>, skip: Seq<char>) -> Seq<Seq<char>> {
    seq![
        "--label-filter="@ + (match label_filter {
            Some(l) => l,
            None => "!disruptive"@,
        }),
        "-v"@,
    ] + (if skip.len() > 0 { seq!["--skip"@, skip] } else { Seq::empty() }) + (match focus {
        Some(f) => seq!["--focus"@, f],
        None => Seq::empty(),
    }) + seq!["./test/e2e/..."@]
}

fn push_str(v: &mut Vec<String>, s: &str)
    ensures
        views(final(v)@) == views(old(v)@).push(s@),
{
    let ghost before = v@;
    v.push(String::from_str(s));
    assert(views(v@) =~= views(before).push(s@));
}

/// The arguments of a ginkgo run of the end-to-end tests.
pub fn ginkgo_args(focus: Option<&str>, label_filter: Option<&str>, skip_patterns: &Vec<String>) -> (r: Vec<String>)
    ensures
        views(r@) == ginkgo_args_of(
            match focus {
                Some(f) => Some(f@),
                None => None,
            },
            match label_filter {
                Some(l) => Some(l@),
                None => None,
            },
            skip_pattern(views(skip_patterns@)),
        ),
{
    let mut v: Vec<String> = Vec::new();
    assert(views(v@) =~= Seq::<Seq<char>>::empty());
    let mut lf = String::from_str("--label-filter=");
    match label_filter {
        Some(l) => lf.append(l),
        None => lf.append("!disruptive"),
    }
    let ghost before = v@;
    v.push(lf);
    assert(views(v@) =~= views(before).push(lf@));
    push_str(&mut v, "-v");
    let skip = generate_skip_pattern(skip_patterns);
    if !skip.as_str().is_empty() {
        push_str(&mut v, "--skip");
        push_str(&mut v, skip.as_str());
    }
    match focus {
        Some(f) => {
            push_str(&mut v, "--focus");
            push_str(&mut v, f);
        },
        None => {},
    }
    push_str(&mut v, "./test/e2e/...");
    assert(views(v@) =~= ginkgo_args_of(
        match focus {
            Some(f) => Some(f@),
            None => None,
        },
        match label_filter {
            Some(l) => Some(l@),
            None => None,
        },
        skip@,
    ));
    v
}

/// Whether the current context, as the client prints it, names a kind cluster.
pub fn is_kind_cluster(current_context: &str) -> (r: bool)
    ensures
        r == (trim(current_context@).len() >= 5 && trim(current_context@).subrange(0, 5) == "kind-"@),
{
    proof {
        reveal_strlit("kind-");
    }
    let t = trim_blanks(current_context);
    let n = t.as_str().unicode_len();
    if n < 5 {
        return false;
    }
    crate::text::str_eq(t.as_str().substring_char(0, 5), "kind-")
}

/// Reads the outcome of deleting every network policy: having none to
/// delete, or no such resource type, is no failure.
pub fn delete_network_policies(reply: Result<String, String>) -> (r: Result<(), String>)
    ensures
        reply is Ok ==> r is Ok,
        reply matches Err(e) ==> (r is Ok <==> (contains(e@, "No resources found"@) || contains(
            e@,
            "the server doesn't have a resource type \"networkpolicies\""@,
        ))),
        reply matches Err(e) ==> (r matches Err(m) ==> m == e),
{
    match reply {
        Ok(_) => Ok(()),
        Err(e) => if contains_str(e.as_str(), "No resources found") || contains_str(
            e.as_str(),
            "the server doesn't have a resource type \"networkpolicies\"",
        ) {
            Ok(())
        } else {
            Err(e)
        },
    }
}

/// One step of running the upstream tests.
#[derive(Debug, Clone, Copy, PartialEq, Eq, Structural)]
pub enum UpstreamTestStep {
    ApplyPatches,
    ScaleDownOperator,
    DeleteNetworkPolicies,
    LabelWorkerNodes,
    AllowPrivilegedAccess,
    EnsureGinkgo,
    RunTests,
}

/// The steps of an upstream test run; on a kind cluster the operator is
/// scaled down and the network policies removed first.
pub open spec fn upstream_test_plan(on_kind: bool) -> Seq<UpstreamTestStep> {
    seq![UpstreamTestStep::ApplyPatches] + (if on_kind {
        seq![UpstreamTestStep::ScaleDownOperator, UpstreamTestStep::DeleteNetworkPolicies]
    } else {
        Seq::empty()
    }) + seq![
        UpstreamTestStep::LabelWorkerNodes,
        UpstreamTestStep::AllowPrivilegedAccess,
        UpstreamTestStep::EnsureGinkgo,
        UpstreamTestStep::RunTests,
    ]
}

/// The steps of an upstream test run.
pub fn test_upstream(on_kind: bool) -> (r: Vec<UpstreamTestStep>)
    ensures
        r@ == upstream_test_plan(on_kind),
{
    let mut v: Vec<UpstreamTestStep> = Vec::new();
    v.push(UpstreamTestStep::ApplyPatches);
    if on_kind {
        v.push(UpstreamTestStep::ScaleDownOperator);
        v.push(UpstreamTestStep::DeleteNetworkPolicies);
    }
    v.push(UpstreamTestStep::LabelWorkerNodes);
    v.push(UpstreamTestStep::AllowPrivilegedAccess);
    v.push(UpstreamTestStep::EnsureGinkgo);
    v.push(UpstreamTestStep::RunTests);
    assert(v@ =~= upstream_test_plan(on_kind));
    v
}

/// The commands that stop the operator: scale it to nothing, then wait for
/// its pods to be gone.
pub fn scale_down_operator() -> (r: (Vec<String>, Vec<String>))
    ensures
        views(r.0@) == seq![
            "scale"@,
            "deployment/openshift-kueue-operator"@,
            "--replicas=0"@,
            "-n"@,
            "openshift-kueue-operator"@,
        ],
        views(r.1@) == seq![
            "wait"@,
            "--for=delete"@,
            "pod"@,
            "-l"@,
            "name=openshift-kueue-operator"@,
            "-n"@,
            "openshift-kueue-operator"@,
            "--timeout=60s"@,
        ],
{
    let mut a: Vec<String> = Vec::new();
    assert(views(a@) =~= Seq::<Seq<char>>::empty());
    push_str(&mut a, "scale");
    push_str(&mut a, "deployment/openshift-kueue-operator");
    push_str(&mut a, "--replicas=0");
    push_str(&mut a, "-n");
    push_str(&mut a, "openshift-kueue-operator");
    let mut b: Vec<String> = Vec::new();
    assert(views(b@) =~= Seq::<Seq<char>>::empty());
    push_str(&mut b, "wait");
    push_str(&mut b, "--for=delete");
    push_str(&mut b, "pod");
    push_str(&mut b, "-l");
    push_str(&mut b, "name=openshift-kueue-operator");
    push_str(&mut b, "-n");
    push_str(&mut b, "openshift-kueue-operator");
    push_str(&mut b, "--timeout=60s");
    (a, b)
}

/// The shape of a test run on a fresh kind cluster: the cluster is created
/// with Calico, the operator installed from its manifests, and the tests run.
pub fn run_tests_kind(options: &TestKindOptions) -> (r: PlanOptions)
    ensures
        r == (PlanOptions {
            create_cluster: true,
            calico: true,
            use_bundle: false,
            skip_kueue_cr: options.skip_kueue_cr,
            skip_tests: false,
        }),
{
    PlanOptions { create_cluster: true, calico: true, use_bundle: false, skip_kueue_cr: options.skip_kueue_cr, skip_tests: false }
}

/// The credentials the tests run with must exist.
pub fn run_tests(kubeconfig: &str, exists: bool) -> (r: Result<(), String>)
    ensures
        r is Ok <==> exists,
        r matches Err(m) ==> m@ == "Kubeconfig not found at "@ + kubeconfig@ + ". Please create cluster first."@,
{
    if exists {
        Ok(())
    } else {
        let mut m = String::from_str("Kubeconfig not found at ");
        m.append(kubeconfig);
        m.append(". Please create cluster first.");
        Err(m)
    }
}

/// The arguments of a ginkgo run of the upstream tests of `target`.
pub open spec fn upstream_ginkgo_args_of(focus: Option<Seq<char>>, label_filter: Option<Seq<char>>, skip: Seq<char>, target: Seq<char>) -> Seq<Seq<char>> {
    (if skip.len() > 0 { seq!["--skip"@, skip] } else { Seq::empty() }) + seq!["-v"@] + (match focus {
        Some(f) => seq!["--focus"@, f],
        None => Seq::empty(),
    }) + (match label_filter {
        Some(l) => seq!["--label-filter="@ + l],
        None => Seq::empty(),
    }) + seq!["--junit-report=junit.xml"@, "--json-report=e2e.json"@, "./test/e2e/"@ + target + "/..."@]
}

/// The arguments of a ginkgo run of the upstream tests of `target`.
pub fn upstream_ginkgo_args(focus: Option<&str>, label_filter: Option<&str>, skip_patterns: &Vec<String>, target: &str) -> (r: Vec<String>)
    ensures
        views(r@) == upstream_ginkgo_args_of(
            match focus {
                Some(f) => Some(f@),
                None => None,
            },
            match label_filter {
                Some(l) => Some(l@),
                None => None,
            },
            skip_pattern(views(skip_patterns@)),
            target@,
        ),
{
    let mut v: Vec<String> = Vec::new();
    assert(views(v@) =~= Seq::<Seq<char>>::empty());
    let skip = generate_skip_pattern(skip_patterns);
    if !skip.as_str().is_empty() {
        push_str(&mut v, "--skip");
        push_str(&mut v, skip.as_str());
    }
    push_str(&mut v, "-v");
    match focus {
        Some(f) => {
            push_str(&mut v, "--focus");
            push_str(&mut v, f);
        },
        None => {},
    }
    match label_filter {
        Some(l) => {
            let mut a = String::from_str("--label-filter=");
            a.append(l);
            push_str(&mut v, a.as_str());
        },
        None => {},
    }
    push_str(&mut v, "--junit-report=junit.xml");
    push_str(&mut v, "--json-report=e2e.json");
    let mut path = String::from_str("./test/e2e/");
    path.append(target);
    path.append("/...");
    push_str(&mut v, path.as_str());
    assert(views(v@) =~= upstream_ginkgo_args_of(
        match focus {
            Some(f) => Some(f@),
            None => None,
        },
        match label_filter {
            Some(l) => Some(l@),
            None => None,
        },
        skip@,
        target@,
    ));
    v
}

/// The security context constraints that the upstream tests need for every
/// authenticated user and service account.
pub open spec fn privileged_scc_args(scc: Seq<char>) -> Seq<Seq<char>> {
    seq!["adm"@, "policy"@, "add-scc-to-group"@, scc, "system:authenticated"@, "system:serviceaccounts"@]
}

fn scc_command(scc: &str) -> (r: Vec<String>)
    ensures
        views(r@) == privileged_scc_args(scc@),
{
    let mut v: Vec<String> = Vec::new();
    assert(views(v@) =~= Seq::<Seq<char>>::empty());
    push_str(&mut v, "adm");
    push_str(&mut v, "policy");
    push_str(&mut v, "add-scc-to-group");
    push_str(&mut v, scc);
    push_str(&mut v, "system:authenticated");
    push_str(&mut v, "system:serviceaccounts");
    v
}

/// The OpenShift client commands that let the tests run privileged pods,
/// in order: the privileged constraint, then any user id.
pub fn allow_privileged_access() -> (r: (Vec<String>, Vec<String>))
    ensures
        views(r.0@) == privileged_scc_args("privileged"@),
        views(r.1@) == privileged_scc_args("anyuid"@),
{
    (scc_command("privileged"), scc_command("anyuid"))
}

} // verus!
