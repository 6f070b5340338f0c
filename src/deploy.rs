//! The bring-up of a test environment as a fixed pipeline of steps. Each step
//! is a gate: the next one runs only once it succeeded, and the first failure
//! ends the run, attributed to its step.
use vstd::prelude::*;
use crate::kind::CniProvider;
use crate::settings::Versions;

verus! {

/// One step of a deployment.
#[derive(Debug, Clone, Copy, PartialEq, Eq, Structural)]
pub enum DeployStep {
    CreateCluster,
    InstallCalico,
    LabelWorkerNodes,
    VerifyCluster,
    UninstallPreviousOperator,
    /// Delete the leader-election lease of an earlier operator; may fail harmlessly.
    ClearLeaderLease,
    /// Start loading the images into the cluster in the background.
    StartImageLoad,
    /// Install the dependencies side by side and join them.
    InstallDependencies,
    /// Wait for the background image load to finish.
    JoinImageLoad,
    InstallOperatorBundle,
    InstallCrds,
    ApplyOperatorManifests,
    WaitOperatorAvailable,
    /// Give the operator's controllers this many seconds to start.
    SettleControllers(u64),
    ApplyKueueCr,
    WaitControllerCreated,
    WaitControllerAvailable,
    /// Read the deployed versions from the logs; may fail harmlessly.
    ReportVersions,
    RunTests,
}

/// The name of a step, as reported.
pub open spec fn step_name(s: DeployStep) -> Seq<char> {
    match s {
        DeployStep::CreateCluster => "create cluster"@,
        DeployStep::InstallCalico => "install Calico"@,
        DeployStep::LabelWorkerNodes => "label worker nodes"@,
        DeployStep::VerifyCluster => "verify cluster"@,
        DeployStep::UninstallPreviousOperator => "uninstall previous operator"@,
        DeployStep::ClearLeaderLease => "clear leader lease"@,
        DeployStep::StartImageLoad => "start image load"@,
        DeployStep::InstallDependencies => "install dependencies"@,
        DeployStep::JoinImageLoad => "load images"@,
        DeployStep::InstallOperatorBundle => "install operator bundle"@,
        DeployStep::InstallCrds => "install CRDs"@,
        DeployStep::ApplyOperatorManifests => "apply operator manifests"@,
        DeployStep::WaitOperatorAvailable => "wait for operator"@,
        DeployStep::SettleControllers(_) => "let controllers settle"@,
        DeployStep::ApplyKueueCr => "apply Kueue CR"@,
        DeployStep::WaitControllerCreated => "wait for kueue-controller-manager to be created"@,
        DeployStep::WaitControllerAvailable => "wait for kueue-controller-manager"@,
        DeployStep::ReportVersions => "report versions"@,
        DeployStep::RunTests => "run tests"@,
    }
}

impl DeployStep {
    /// The step's name.
    pub fn name(&self) -> (r: &'static str)
        ensures
            r@ == step_name(*self),
    {
        match self {
            DeployStep::CreateCluster => "create cluster",
            DeployStep::InstallCalico => "install Calico",
            DeployStep::LabelWorkerNodes => "label worker nodes",
            DeployStep::VerifyCluster => "verify cluster",
            DeployStep::UninstallPreviousOperator => "uninstall previous operator",
            DeployStep::ClearLeaderLease => "clear leader lease",
            DeployStep::StartImageLoad => "start image load",
            DeployStep::InstallDependencies => "install dependencies",
            DeployStep::JoinImageLoad => "load images",
            DeployStep::InstallOperatorBundle => "install operator bundle",
            DeployStep::InstallCrds => "install CRDs",
            DeployStep::ApplyOperatorManifests => "apply operator manifests",
            DeployStep::WaitOperatorAvailable => "wait for operator",
            DeployStep::SettleControllers(_) => "let controllers settle",
            DeployStep::ApplyKueueCr => "apply Kueue CR",
            DeployStep::WaitControllerCreated => "wait for kueue-controller-manager to be created",
            DeployStep::WaitControllerAvailable => "wait for kueue-controller-manager",
            DeployStep::ReportVersions => "report versions",
            DeployStep::RunTests => "run tests",
        }
    }
}

/// Seconds granted to a freshly started operator before a custom resource is
/// applied: no status of the operator tells when its reconcilers are ready.
pub const CONTROLLER_SETTLE_SECS: u64 = 30;

/// The choices that shape a deployment.
#[derive(Debug, Clone, Copy, PartialEq, Eq, Structural)]
pub struct PlanOptions {
    /// Create the cluster first, instead of using one that exists.
    pub create_cluster: bool,
    /// The cluster is created without its default network, which Calico then provides.
    pub calico: bool,
    /// Install the operator as a bundle, instead of from its manifests.
    pub use_bundle: bool,
    pub skip_kueue_cr: bool,
    pub skip_tests: bool,
}

pub open spec fn cluster_steps(o: PlanOptions) -> Seq<DeployStep> {
    if o.create_cluster {
        seq![DeployStep::CreateCluster] + (if o.calico { seq![DeployStep::InstallCalico] } else { Seq::empty() })
            + seq![DeployStep::LabelWorkerNodes]
    } else {
        seq![DeployStep::VerifyCluster]
    }
}

pub open spec fn preparation_steps() -> Seq<DeployStep> {
    seq![
        DeployStep::UninstallPreviousOperator,
        DeployStep::ClearLeaderLease,
        DeployStep::StartImageLoad,
        DeployStep::InstallDependencies,
        DeployStep::JoinImageLoad,
    ]
}

pub open spec fn operator_steps(o: PlanOptions) -> Seq<DeployStep> {
    (if o.use_bundle {
        seq![DeployStep::InstallOperatorBundle]
    } else {
        seq![DeployStep::InstallCrds, DeployStep::ApplyOperatorManifests]
    }) + seq![DeployStep::WaitOperatorAvailable, DeployStep::SettleControllers(CONTROLLER_SETTLE_SECS)]
}

pub open spec fn kueue_cr_steps(o: PlanOptions) -> Seq<DeployStep> {
    if o.skip_kueue_cr {
        Seq::empty()
    } else {
        seq![DeployStep::ApplyKueueCr, DeployStep::WaitControllerCreated, DeployStep::WaitControllerAvailable]
    }
}

pub open spec fn closing_steps(o: PlanOptions) -> Seq<DeployStep> {
    seq![DeployStep::ReportVersions] + (if o.skip_tests { Seq::empty() } else { seq![DeployStep::RunTests] })
}

/// The steps of a deployment, in order.
pub open spec fn plan_of(o: PlanOptions) -> Seq<DeployStep> {
    cluster_steps(o) + preparation_steps() + operator_steps(o) + kueue_cr_steps(o) + closing_steps(o)
}

/// A step whose failure does not end the deployment.
pub open spec fn is_best_effort(s: DeployStep) -> bool {
    s == DeployStep::ClearLeaderLease || s == DeployStep::ReportVersions
}

/// Every application of the custom resource comes right after the operator
/// was found available and given time to settle.
pub open spec fn kueue_cr_gated(plan: Seq<DeployStep>) -> bool {
    forall|i: int| 0 <= i < plan.len() && #[trigger] plan[i] == DeployStep::ApplyKueueCr ==>
        i >= 2 && plan[i - 2] == DeployStep::WaitOperatorAvailable && plan[i - 1] is SettleControllers
}

/// The steps of a deployment with these options.
pub fn deployment_plan(o: PlanOptions) -> (r: Vec<DeployStep>)
    ensures
        r@ == plan_of(o),
        kueue_cr_gated(r@),
{
    let mut v: Vec<DeployStep> = Vec::new();
    if o.create_cluster {
        v.push(DeployStep::CreateCluster);
        if o.calico {
            v.push(DeployStep::InstallCalico);
        }
        v.push(DeployStep::LabelWorkerNodes);
    } else {
        v.push(DeployStep::VerifyCluster);
    }
    assert(v@ =~= cluster_steps(o));
    v.push(DeployStep::UninstallPreviousOperator);
    v.push(DeployStep::ClearLeaderLease);
    v.push(DeployStep::StartImageLoad);
    v.push(DeployStep::InstallDependencies);
    v.push(DeployStep::JoinImageLoad);
    assert(v@ =~= cluster_steps(o) + preparation_steps());
    if o.use_bundle {
        v.push(DeployStep::InstallOperatorBundle);
    } else {
        v.push(DeployStep::InstallCrds);
        v.push(DeployStep::ApplyOperatorManifests);
    }
    v.push(DeployStep::WaitOperatorAvailable);
    v.push(DeployStep::SettleControllers(CONTROLLER_SETTLE_SECS));
    let ghost before_cr = v@;
    assert(before_cr =~= cluster_steps(o) + preparation_steps() + operator_steps(o));
    if !o.skip_kueue_cr {
        v.push(DeployStep::ApplyKueueCr);
        v.push(DeployStep::WaitControllerCreated);
        v.push(DeployStep::WaitControllerAvailable);
    }
    assert(v@ =~= before_cr + kueue_cr_steps(o));
    v.push(DeployStep::ReportVersions);
    if !o.skip_tests {
        v.push(DeployStep::RunTests);
    }
    assert(v@ =~= plan_of(o));
    proof {
        lemma_plan_gated(o);
    }
    v
}

/// A failed deployment: the step that failed, and why.
pub struct DeployError {
    pub step: DeployStep,
    pub message: String,
}

impl DeployError {
    /// The error as text: the step by name, then why it failed.
    pub fn describe(&self) -> (r: String)
        ensures
            r@ == "Step '"@ + step_name(self.step) + "' failed: "@ + self.message@,
    {
        let mut s = String::from_str("Step '");
        s.append(self.step.name());
        s.append("' failed: ");
        s.append(self.message.as_str());
        s
    }
}

/// The failure of the background image load, kept apart from those of the
/// dependency installs.
pub fn image_load_failure(message: &str) -> (r: String)
    ensures
        r@ == "image load thread failed: "@ + message@,
{
    let mut s = String::from_str("image load thread failed: ");
    s.append(message);
    s
}

/// What the sequencer asks for next.
pub enum DeployAction {
    Run(DeployStep),
    Finish(Result<(), DeployError>),
    Idle,
}

/// Where a deployment stands: the plan, the index of the step that runs, and
/// whether it is over.
pub struct Sequencer {
    pub plan: Vec<DeployStep>,
    pub position: usize,
    pub finished: bool,
}

/// One step of the sequencer: on the reply to the step at `position`, the
/// next position, whether the run is over, and the next action.
pub open spec fn sequence_step(plan: Seq<DeployStep>, position: nat, finished: bool, reply: Result<(), String>) -> (nat, bool, DeployAction) {
    if finished || position >= plan.len() {
        (position, true, DeployAction::Idle)
    } else {
        match reply {
            Err(m) if !is_best_effort(plan[position as int]) => (
                position,
                true,
                DeployAction::Finish(Err(DeployError { step: plan[position as int], message: m })),
            ),
            _ => if position + 1 < plan.len() {
                ((position + 1) as nat, false, DeployAction::Run(plan[position + 1 as int]))
            } else {
                ((position + 1) as nat, true, DeployAction::Finish(Ok(())))
            },
        }
    }
}

/// The actions of the sequencer given the replies in order.
pub open spec fn sequence_trace(plan: Seq<DeployStep>, position: nat, finished: bool, replies: Seq<Result<(), String>>) -> Seq<DeployAction>
    decreases replies.len(),
{
    if replies.len() == 0 {
        Seq::empty()
    } else {
        let (p, f, a) = sequence_step(plan, position, finished, replies[0]);
        seq![a] + sequence_trace(plan, p, f, replies.drop_first())
    }
}

impl Sequencer {
    /// A sequencer at the start of `plan`, and its first action.
    pub fn start(plan: Vec<DeployStep>) -> (r: (Sequencer, DeployAction))
        ensures
            r.0.plan == plan,
            r.0.position == 0,
            plan@.len() > 0 ==> !r.0.finished && r.1 == DeployAction::Run(plan@[0]),
            plan@.len() == 0 ==> r.0.finished && r.1 == DeployAction::Finish(Ok(())),
    {
        if plan.len() > 0 {
            let first = plan[0];
            (Sequencer { plan, position: 0, finished: false }, DeployAction::Run(first))
        } else {
            (Sequencer { plan, position: 0, finished: true }, DeployAction::Finish(Ok(())))
        }
    }

    /// Advances the run on the reply to the step that ran.
    pub fn advance(&mut self, reply: Result<(), String>) -> (r: DeployAction)
        ensures
            final(self).plan == old(self).plan,
            (final(self).position as nat, final(self).finished, r)
                == sequence_step(old(self).plan@, old(self).position as nat, old(self).finished, reply),
    {
        if self.finished || self.position >= self.plan.len() {
            self.finished = true;
            return DeployAction::Idle;
        }
        let step = self.plan[self.position];
        match reply {
            Err(m) => {
                if !(step == DeployStep::ClearLeaderLease || step == DeployStep::ReportVersions) {
                    self.finished = true;
                    return DeployAction::Finish(Err(DeployError { step, message: m }));
                }
            },
            Ok(_) => {},
        }
        self.position = self.position + 1;
        if self.position < self.plan.len() {
            DeployAction::Run(self.plan[self.position])
        } else {
            self.finished = true;
            DeployAction::Finish(Ok(()))
        }
    }
}

/// Whether the replies before index `n` all let the run go on.
pub open spec fn all_passed(plan: Seq<DeployStep>, start: nat, replies: Seq<Result<(), String>>, n: int) -> bool {
    forall|j: int| 0 <= j < n ==> (#[trigger] replies[j]) is Ok || is_best_effort(plan[start + j])
}

/// The sequencer runs a step only when every step before it succeeded (or
/// failed harmlessly), and the step it runs is the next one of the plan.
pub proof fn lemma_runs_only_after_success(
    plan: Seq<DeployStep>,
    position: nat,
    finished: bool,
    replies: Seq<Result<(), String>>,
    k: int,
)
    requires
        0 <= k < replies.len(),
        sequence_trace(plan, position, finished, replies)[k] is Run,
    ensures
        !finished,
        position + k + 1 < plan.len(),
        sequence_trace(plan, position, finished, replies)[k] == DeployAction::Run(plan[position + k + 1]),
        all_passed(plan, position, replies, k + 1),
    decreases replies.len(),
{
    let (p, f, a) = sequence_step(plan, position, finished, replies[0]);
    let rest = sequence_trace(plan, p, f, replies.drop_first());
    lemma_sequence_trace_len(plan, p, f, replies.drop_first());
    assert(sequence_trace(plan, position, finished, replies) == seq![a] + rest);
    if k == 0 {
        assert(a is Run);
    } else {
        assert(sequence_trace(plan, position, finished, replies)[k] == rest[k - 1]);
        if finished || position >= plan.len() {
            lemma_idle_after_finish(plan, p, replies.drop_first());
            assert(rest[k - 1] is Idle);
            assert(false);
        }
        lemma_runs_only_after_success(plan, p, f, replies.drop_first(), k - 1);
        assert forall|j: int| 0 <= j < k + 1 implies (#[trigger] replies[j]) is Ok || is_best_effort(plan[position + j]) by {
            if j > 0 {
                assert(replies[j] == replies.drop_first()[j - 1]);
            }
        }
    }
}

proof fn lemma_sequence_trace_len(plan: Seq<DeployStep>, position: nat, finished: bool, replies: Seq<Result<(), String>>)
    ensures
        sequence_trace(plan, position, finished, replies).len() == replies.len(),
    decreases replies.len(),
{
    if replies.len() > 0 {
        let (p, f, a) = sequence_step(plan, position, finished, replies[0]);
        lemma_sequence_trace_len(plan, p, f, replies.drop_first());
    }
}

proof fn lemma_idle_after_finish(plan: Seq<DeployStep>, position: nat, replies: Seq<Result<(), String>>)
    ensures
        forall|i: int| 0 <= i < sequence_trace(plan, position, true, replies).len()
            ==> #[trigger] sequence_trace(plan, position, true, replies)[i] is Idle,
    decreases replies.len(),
{
    if replies.len() > 0 {
        lemma_idle_after_finish(plan, position, replies.drop_first());
        let tr = sequence_trace(plan, position, true, replies);
        let rest = sequence_trace(plan, position, true, replies.drop_first());
        assert(tr == seq![DeployAction::Idle] + rest);
        assert forall|i: int| 0 <= i < tr.len() implies #[trigger] tr[i] is Idle by {
            if i > 0 {
                assert(tr[i] == rest[i - 1]);
            }
        }
    }
}

/// The custom resource is applied only after the wait for the operator's
/// availability returned success: in a run of any deployment plan, whatever
/// the replies, the action that applies it is preceded by a successful reply
/// to that wait.
pub proof fn lemma_kueue_cr_gated(o: PlanOptions, replies: Seq<Result<(), String>>, k: int)
    requires
        0 <= k < replies.len(),
        sequence_trace(plan_of(o), 0, false, replies)[k] == DeployAction::Run(DeployStep::ApplyKueueCr),
    ensures
        k >= 1,
        plan_of(o)[k - 1] == DeployStep::WaitOperatorAvailable,
        replies[k - 1] is Ok,
{
    let plan = plan_of(o);
    lemma_runs_only_after_success(plan, 0, false, replies, k);
    assert(plan[k + 1] == DeployStep::ApplyKueueCr);
    let v = plan;
    assert(kueue_cr_gated(plan)) by {
        lemma_plan_gated(o);
    }
    assert(plan[k - 1] == DeployStep::WaitOperatorAvailable);
    assert(replies[k - 1] is Ok || is_best_effort(plan[k - 1]));
}

proof fn lemma_plan_gated(o: PlanOptions)
    ensures
        kueue_cr_gated(plan_of(o)),
{
    let before_cr = cluster_steps(o) + preparation_steps() + operator_steps(o);
    let n = before_cr.len();
    let plan = plan_of(o);
    assert(plan == before_cr + kueue_cr_steps(o) + closing_steps(o));
    assert(before_cr[n - 2] == DeployStep::WaitOperatorAvailable);
    assert(before_cr[n - 1] is SettleControllers);
    assert forall|i: int| 0 <= i < plan.len() && #[trigger] plan[i] == DeployStep::ApplyKueueCr implies
        i >= 2 && plan[i - 2] == DeployStep::WaitOperatorAvailable && plan[i - 1] is SettleControllers by {
        if i < n {
            assert(plan[i] == before_cr[i]);
            if i < cluster_steps(o).len() {
                assert(before_cr[i] == cluster_steps(o)[i]);
            } else if i < cluster_steps(o).len() + 5 {
                assert(before_cr[i] == preparation_steps()[i - cluster_steps(o).len()]);
            } else {
                assert(before_cr[i] == operator_steps(o)[i - cluster_steps(o).len() - 5]);
            }
        } else if i >= n + kueue_cr_steps(o).len() {
            assert(plan[i] == closing_steps(o)[i - n - kueue_cr_steps(o).len()]);
        } else {
            assert(plan[i] == kueue_cr_steps(o)[i - n]);
        }
        assert(i == n);
    }
}

/// What a deployment to a kind cluster is asked to do.
pub struct DeployKindOptions {
    pub cluster_name: String,
    pub images_file: String,
    pub kubeconfig: Option<String>,
    pub skip_tests: bool,
    pub skip_kueue_cr: bool,
    pub kueue_frameworks: Option<String>,
    pub kueue_namespace: Option<String>,
    pub use_bundle: bool,
    pub cert_manager_version: Option<String>,
    pub jobset_version: Option<String>,
    pub leaderworkerset_version: Option<String>,
    pub prometheus_version: Option<String>,
}

/// The version an override leaves: the override when given.
pub open spec fn overridden(current: String, o: Option<String>) -> String {
    match o {
        Some(v) => v,
        None => current,
    }
}

fn override_version(current: &mut String, o: &Option<String>)
    ensures
        *final(current) == overridden(*old(current), *o),
{
    match o {
        Some(v) => {
            *current = v.clone();
        },
        None => {},
    }
}

impl DeployKindOptions {
    /// The shape of the deployment these options ask for.
    pub fn plan_options(&self, create_cluster: bool, cni: CniProvider) -> (r: PlanOptions)
        ensures
            r == (PlanOptions {
                create_cluster,
                calico: create_cluster && cni == CniProvider::Calico,
                use_bundle: self.use_bundle,
                skip_kueue_cr: self.skip_kueue_cr,
                skip_tests: self.skip_tests,
            }),
    {
        PlanOptions {
            create_cluster,
            calico: create_cluster && cni == CniProvider::Calico,
            use_bundle: self.use_bundle,
            skip_kueue_cr: self.skip_kueue_cr,
            skip_tests: self.skip_tests,
        }
    }

    /// Replaces the configured dependency versions by those given on the
    /// command line.
    pub fn apply_version_overrides(&self, versions: &mut Versions)
        ensures
            final(versions).cert_manager == overridden(old(versions).cert_manager, self.cert_manager_version),
            final(versions).jobset == overridden(old(versions).jobset, self.jobset_version),
            final(versions).leaderworkerset == overridden(old(versions).leaderworkerset, self.leaderworkerset_version),
            final(versions).prometheus_operator == overridden(old(versions).prometheus_operator, self.prometheus_version),
            final(versions).calico == old(versions).calico,
    {
        override_version(&mut versions.cert_manager, &self.cert_manager_version);
        override_version(&mut versions.jobset, &self.jobset_version);
        override_version(&mut versions.leaderworkerset, &self.leaderworkerset_version);
        override_version(&mut versions.prometheus_operator, &self.prometheus_version);
    }
}

/// The shape of a full deployment: create the cluster (with Calico when it
/// is the network), then deploy the operator as a bundle with its custom
/// resource.
pub fn deploy_kind_full(cni: CniProvider, skip_tests: bool) -> (r: PlanOptions)
    ensures
        r == (PlanOptions {
            create_cluster: true,
            calico: cni == CniProvider::Calico,
            use_bundle: true,
            skip_kueue_cr: false,
            skip_tests,
        }),
{
    PlanOptions { create_cluster: true, calico: cni == CniProvider::Calico, use_bundle: true, skip_kueue_cr: false, skip_tests }
}

/// Every `a` of the plan comes before every `b`.
pub open spec fn runs_before(plan: Seq<DeployStep>, a: DeployStep, b: DeployStep) -> bool {
    forall|i: int, j: int| 0 <= i < plan.len() && 0 <= j < plan.len() && #[trigger] plan[i] == a && #[trigger] plan[j] == b ==> i < j
}

/// Which part of the plan an index falls in: the cluster, the preparation,
/// the operator, the custom resource, or the closing steps.
pub open spec fn part_of(o: PlanOptions, i: int) -> int {
    let c = cluster_steps(o).len() as int;
    let p = c + preparation_steps().len();
    let op = p + operator_steps(o).len();
    let cr = op + kueue_cr_steps(o).len();
    if i < c {
        0
    } else if i < p {
        1
    } else if i < op {
        2
    } else if i < cr {
        3
    } else {
        4
    }
}

proof fn lemma_step_in_part(o: PlanOptions, i: int)
    requires
        0 <= i < plan_of(o).len(),
    ensures
        part_of(o, i) == 0 ==> plan_of(o)[i] == cluster_steps(o)[i],
        part_of(o, i) == 1 ==> plan_of(o)[i] == preparation_steps()[i - cluster_steps(o).len()],
        part_of(o, i) == 2 ==> plan_of(o)[i] == operator_steps(o)[i - cluster_steps(o).len() - 5],
        part_of(o, i) == 3 ==> plan_of(o)[i] == kueue_cr_steps(o)[i - cluster_steps(o).len() - 5 - operator_steps(o).len()],
        part_of(o, i) == 4 ==> plan_of(o)[i] == closing_steps(o)[i - cluster_steps(o).len() - 5 - operator_steps(o).len()
            - kueue_cr_steps(o).len()],
{
    let a = cluster_steps(o);
    let b = preparation_steps();
    let c = operator_steps(o);
    let d = kueue_cr_steps(o);
    let e = closing_steps(o);
    assert(plan_of(o) == (((a + b) + c) + d) + e);
}

proof fn lemma_load_starts_before_installs(o: PlanOptions)
    ensures
        runs_before(plan_of(o), DeployStep::StartImageLoad, DeployStep::InstallDependencies),
{
    let plan = plan_of(o);
    assert forall|i: int, j: int| 0 <= i < plan.len() && 0 <= j < plan.len() && #[trigger] plan[i] == DeployStep::StartImageLoad
        && #[trigger] plan[j] == DeployStep::InstallDependencies implies i < j by {
        lemma_step_in_part(o, i);
        lemma_step_in_part(o, j);
    }
}

proof fn lemma_installs_before_join(o: PlanOptions)
    ensures
        runs_before(plan_of(o), DeployStep::InstallDependencies, DeployStep::JoinImageLoad),
{
    let plan = plan_of(o);
    assert forall|i: int, j: int| 0 <= i < plan.len() && 0 <= j < plan.len() && #[trigger] plan[i] == DeployStep::InstallDependencies
        && #[trigger] plan[j] == DeployStep::JoinImageLoad implies i < j by {
        lemma_step_in_part(o, i);
        lemma_step_in_part(o, j);
    }
}

proof fn lemma_join_before_bundle(o: PlanOptions)
    ensures
        runs_before(plan_of(o), DeployStep::JoinImageLoad, DeployStep::InstallOperatorBundle),
{
    let plan = plan_of(o);
    assert forall|i: int, j: int| 0 <= i < plan.len() && 0 <= j < plan.len() && #[trigger] plan[i] == DeployStep::JoinImageLoad
        && #[trigger] plan[j] == DeployStep::InstallOperatorBundle implies i < j by {
        lemma_step_in_part(o, i);
        lemma_step_in_part(o, j);
    }
}

proof fn lemma_join_before_manifests(o: PlanOptions)
    ensures
        runs_before(plan_of(o), DeployStep::JoinImageLoad, DeployStep::ApplyOperatorManifests),
{
    let plan = plan_of(o);
    assert forall|i: int, j: int| 0 <= i < plan.len() && 0 <= j < plan.len() && #[trigger] plan[i] == DeployStep::JoinImageLoad
        && #[trigger] plan[j] == DeployStep::ApplyOperatorManifests implies i < j by {
        lemma_step_in_part(o, i);
        lemma_step_in_part(o, j);
    }
}

proof fn lemma_operator_wait_before_cr(o: PlanOptions)
    ensures
        runs_before(plan_of(o), DeployStep::WaitOperatorAvailable, DeployStep::ApplyKueueCr),
{
    let plan = plan_of(o);
    assert forall|i: int, j: int| 0 <= i < plan.len() && 0 <= j < plan.len() && #[trigger] plan[i] == DeployStep::WaitOperatorAvailable
        && #[trigger] plan[j] == DeployStep::ApplyKueueCr implies i < j by {
        lemma_step_in_part(o, i);
        lemma_step_in_part(o, j);
    }
}

proof fn lemma_cr_before_creation_wait(o: PlanOptions)
    ensures
        runs_before(plan_of(o), DeployStep::ApplyKueueCr, DeployStep::WaitControllerCreated),
{
    let plan = plan_of(o);
    assert forall|i: int, j: int| 0 <= i < plan.len() && 0 <= j < plan.len() && #[trigger] plan[i] == DeployStep::ApplyKueueCr
        && #[trigger] plan[j] == DeployStep::WaitControllerCreated implies i < j by {
        lemma_step_in_part(o, i);
        lemma_step_in_part(o, j);
    }
}

proof fn lemma_creation_before_availability(o: PlanOptions)
    ensures
        runs_before(plan_of(o), DeployStep::WaitControllerCreated, DeployStep::WaitControllerAvailable),
{
    let plan = plan_of(o);
    assert forall|i: int, j: int| 0 <= i < plan.len() && 0 <= j < plan.len() && #[trigger] plan[i] == DeployStep::WaitControllerCreated
        && #[trigger] plan[j] == DeployStep::WaitControllerAvailable implies i < j by {
        lemma_step_in_part(o, i);
        lemma_step_in_part(o, j);
    }
}

/// The order the pipeline keeps, whatever the options: the network is in
/// place before anything else reads the cluster, the image load starts before
/// the dependencies are installed and is joined after them, and the images
/// are loaded before the operator is installed.
pub proof fn lemma_plan_order(o: PlanOptions)
    ensures
        o.create_cluster && o.calico ==> plan_of(o)[0] == DeployStep::CreateCluster && plan_of(o)[1] == DeployStep::InstallCalico,
        runs_before(plan_of(o), DeployStep::StartImageLoad, DeployStep::InstallDependencies),
        runs_before(plan_of(o), DeployStep::InstallDependencies, DeployStep::JoinImageLoad),
        runs_before(plan_of(o), DeployStep::JoinImageLoad, DeployStep::InstallOperatorBundle),
        runs_before(plan_of(o), DeployStep::JoinImageLoad, DeployStep::ApplyOperatorManifests),
        runs_before(plan_of(o), DeployStep::WaitOperatorAvailable, DeployStep::ApplyKueueCr),
        runs_before(plan_of(o), DeployStep::ApplyKueueCr, DeployStep::WaitControllerCreated),
        runs_before(plan_of(o), DeployStep::WaitControllerCreated, DeployStep::WaitControllerAvailable),
{
    if o.create_cluster && o.calico {
        lemma_step_in_part(o, 0);
        lemma_step_in_part(o, 1);
    }
    lemma_load_starts_before_installs(o);
    lemma_installs_before_join(o);
    lemma_join_before_bundle(o);
    lemma_join_before_manifests(o);
    lemma_operator_wait_before_cr(o);
    lemma_cr_before_creation_wait(o);
    lemma_creation_before_availability(o);
}

/// The message when the credentials file that was named does not exist.
pub open spec fn kubeconfig_missing_message(path: Seq<char>) -> Seq<char> {
    "Kubeconfig not found: "@ + path
}

/// The credentials to deploy with: the path given, which must exist, else
/// the default path.
pub fn resolve_kubeconfig(given: Option<&str>, given_exists: bool, default_path: &str) -> (r: Result<String, String>)
    ensures
        given matches Some(p) ==> (if given_exists {
            r matches Ok(x) && x@ == p@
        } else {
            r matches Err(m) && m@ == kubeconfig_missing_message(p@)
        }),
        given is None ==> (r matches Ok(x) && x@ == default_path@),
{
    match given {
        Some(p) => if given_exists {
            Ok(String::from_str(p))
        } else {
            let mut m = String::from_str("Kubeconfig not found: ");
            m.append(p);
            Err(m)
        },
        None => Ok(String::from_str(default_path)),
    }
}

} // verus!
