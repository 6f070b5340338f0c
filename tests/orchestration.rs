use kueue_dev::bundle::{bundle_next, bundle_start, BundleAction, BundleError, BundlePhase};
use kueue_dev::dependencies::{cert_manager, jobset, prometheus_operator, training_operator};
use kueue_dev::deploy::{deployment_plan, DeployAction, DeployStep, PlanOptions, Sequencer};
use kueue_dev::fanout::{aggregate, TaskResult};
use kueue_dev::installer::{apply_mode, ApplyMode, InstallAction, InstallPhase, InstallStage, InstallTarget, ManifestSource};
use kueue_dev::poller::{classify_lookup, classify_wait_failure, ConditionPoller, Observation, PollError, PollStep};
use kueue_dev::upstream::{deploy_upstream_helm, deploy_upstream_kustomize, helm_image_values, wait_for_kueue_crds, UpstreamStep};
use kueue_dev::testrun::{delete_network_policies, ginkgo_args, is_kind_cluster, scale_down_operator, test_upstream, UpstreamTestStep, generate_skip_pattern, run_tests_with_retry, test_run_start, TestRunAction, TestRunError, TestRunEvent, TestRunPhase};

fn ok(s: &str) -> Result<String, String> {
    Ok(s.to_string())
}

fn err(s: &str) -> Result<String, String> {
    Err(s.to_string())
}

/// Drives an install with the given replies; returns the actions asked for.
fn run_install(t: &InstallTarget, replies: Vec<Result<String, String>>) -> Vec<InstallAction> {
    let (mut phase, first) = t.start();
    let mut actions = vec![first];
    for r in replies {
        let (p, a) = t.step(phase, r);
        phase = p;
        actions.push(a);
    }
    actions
}

fn count_cluster_work(actions: &[InstallAction]) -> usize {
    actions.iter().filter(|a| matches!(a, InstallAction::Apply { .. } | InstallAction::Wait(_))).count()
}

#[test]
fn install_absent_dependency_applies_and_waits() {
    let t = cert_manager("v1.18.0");
    let actions = run_install(&t, vec![err("NotFound"), ok("kind: List"), ok(""), ok(""), ok(""), ok("")]);
    assert!(matches!(actions[0], InstallAction::QueryMarker));
    assert!(matches!(actions[1], InstallAction::FetchManifest));
    assert!(matches!(actions[2], InstallAction::Apply { mode: ApplyMode::ClientSide, .. }));
    assert!(matches!(actions[3], InstallAction::Wait(0)));
    assert!(matches!(actions[4], InstallAction::Wait(1)));
    assert!(matches!(actions[5], InstallAction::Wait(2)));
    assert!(matches!(actions[6], InstallAction::Finish(Ok(()))));
}

#[test]
fn install_present_dependency_does_nothing() {
    let t = cert_manager("v1.18.0");
    let first = run_install(&t, vec![err("NotFound"), ok("doc"), ok(""), ok(""), ok(""), ok("")]);
    assert_eq!(count_cluster_work(&first), 4);
    let second = run_install(&t, vec![ok("namespace/cert-manager"), ok(""), ok("")]);
    assert!(matches!(second[1], InstallAction::Finish(Ok(()))));
    assert_eq!(count_cluster_work(&second), 0);
}

#[test]
fn install_stops_at_first_failed_wait() {
    let t = cert_manager("v1.0.0");
    let actions = run_install(&t, vec![err("x"), ok("doc"), ok(""), ok(""), err("webhook not ready"), ok("")]);
    match &actions[5] {
        InstallAction::Finish(Err(e)) => {
            assert_eq!(e.target, "cert-manager");
            assert_eq!(e.stage, InstallStage::Readiness);
            assert_eq!(e.message, "webhook not ready");
        },
        _ => panic!("expected a failed finish"),
    }
    assert!(matches!(actions[6], InstallAction::Idle));
}

#[test]
fn install_fetch_failure_is_attributed() {
    let t = jobset("v0.10.1");
    let actions = run_install(&t, vec![err("x"), err("download failed")]);
    assert!(matches!(&actions[2], InstallAction::Finish(Err(e)) if e.stage == InstallStage::Fetch && e.target == "jobset"));
}

#[test]
fn large_or_flagged_manifests_apply_server_side() {
    assert_eq!(apply_mode(false, "small"), ApplyMode::ClientSide);
    assert_eq!(apply_mode(true, "small"), ApplyMode::ServerSide);
    let big = "x".repeat(262145);
    assert_eq!(apply_mode(false, &big), ApplyMode::ServerSide);
    let t = jobset("v0.10.1");
    let actions = run_install(&t, vec![err("x"), ok("doc")]);
    assert!(matches!(actions[2], InstallAction::Apply { mode: ApplyMode::ServerSide, .. }));
}

#[test]
fn dependency_targets() {
    let t = cert_manager("v1.18.0");
    assert!(matches!(&t.source, ManifestSource::Download(u) if u == "https://github.com/cert-manager/cert-manager/releases/download/v1.18.0/cert-manager.yaml"));
    assert_eq!(t.readiness[1].resource, "deployment/cert-manager-webhook");
    let t = training_operator("v1.8.1");
    assert!(matches!(&t.source, ManifestSource::Kustomize(u) if u.ends_with("?ref=v1.8.1")));
    let t = prometheus_operator("v0.82.2");
    assert_eq!(t.marker.kind, "deployment");
}

fn run_bundle(replies: Vec<Result<String, String>>) -> Vec<BundleAction> {
    let (mut phase, first) = bundle_start();
    let mut actions = vec![first];
    for r in replies {
        let (p, a) = bundle_next(phase, r);
        phase = p;
        actions.push(a);
    }
    actions
}

fn attempts(actions: &[BundleAction]) -> usize {
    actions.iter().filter(|a| matches!(a, BundleAction::RunBundle(_))).count()
}

fn cleanups(actions: &[BundleAction]) -> usize {
    actions.iter().filter(|a| matches!(a, BundleAction::Cleanup)).count()
}

#[test]
fn conflict_is_retried_exactly_once() {
    let c = "catalogsource already exists";
    let actions = run_bundle(vec![err("NotFound"), err(c), ok(""), ok(""), err(c), err(c), err(c)]);
    assert_eq!(attempts(&actions), 2);
    assert_eq!(cleanups(&actions), 1);
    assert!(matches!(&actions[5], BundleAction::Finish(Err(BundleError::FailedAfterCleanup { cleanup_error: None, message })) if message == c));
}

#[test]
fn other_failure_is_not_retried() {
    let actions = run_bundle(vec![err("NotFound"), err("image pull failed"), ok(""), ok("")]);
    assert_eq!(attempts(&actions), 1);
    assert_eq!(cleanups(&actions), 0);
    assert!(matches!(&actions[2], BundleAction::Finish(Err(BundleError::Failed(m))) if m == "image pull failed"));
}

#[test]
fn leftover_catalog_is_cleaned_before_installing() {
    let actions = run_bundle(vec![ok("catalogsource/kueue-operator-catalog"), err("cleanup warning"), ok(""), ok("installed")]);
    assert!(matches!(actions[1], BundleAction::Cleanup));
    assert!(matches!(actions[2], BundleAction::Settle(3)));
    assert!(matches!(actions[3], BundleAction::RunBundle(2)));
    assert!(matches!(actions[4], BundleAction::Finish(Ok(()))));
    let (p, _) = bundle_next(BundlePhase::CleaningUp, err("cleanup warning"));
    assert!(matches!(p, BundlePhase::Settling { cleanup_error: Some(ref m) } if m == "cleanup warning"));
}

#[test]
fn aggregation_keeps_every_failure() {
    let results = vec![
        TaskResult { name: "task1".to_string(), outcome: Ok(()) },
        TaskResult { name: "task2".to_string(), outcome: Err("boom".to_string()) },
        TaskResult { name: "task3".to_string(), outcome: Ok(()) },
    ];
    let e = aggregate(&results).unwrap_err();
    assert_eq!(e.failures.len(), 1);
    assert_eq!(e.failures[0].name, "task2");
    assert!(e.describe().contains("task2"));
    assert_eq!(e.describe(), "task2: boom\n");
    assert!(aggregate(&vec![]).is_ok());
    let p = TaskResult::panicked("jobset");
    assert_eq!(p.outcome.unwrap_err(), "jobset thread panicked");
}

fn run_plan(plan: Vec<DeployStep>, replies: Vec<Result<(), String>>) -> Vec<DeployAction> {
    let (mut s, first) = Sequencer::start(plan);
    let mut actions = vec![first];
    for r in replies {
        actions.push(s.advance(r));
    }
    actions
}

fn plan_options() -> PlanOptions {
    PlanOptions { create_cluster: false, calico: false, use_bundle: true, skip_kueue_cr: false, skip_tests: true }
}

#[test]
fn custom_resource_waits_for_operator() {
    let plan = deployment_plan(plan_options());
    let at = plan.iter().position(|s| *s == DeployStep::ApplyKueueCr).unwrap();
    assert_eq!(plan[at - 2], DeployStep::WaitOperatorAvailable);
    assert_eq!(plan[at - 1], DeployStep::SettleControllers(30));
    let wait = at - 2;
    let mut replies: Vec<Result<(), String>> = vec![Ok(()); wait];
    replies.push(Err("operator not available".to_string()));
    replies.push(Ok(()));
    replies.push(Ok(()));
    let actions = run_plan(plan.clone(), replies);
    assert!(!actions.iter().any(|a| matches!(a, DeployAction::Run(DeployStep::ApplyKueueCr))));
    assert!(matches!(&actions[wait + 1], DeployAction::Finish(Err(e)) if e.step == DeployStep::WaitOperatorAvailable));
    let all_ok: Vec<Result<(), String>> = vec![Ok(()); plan.len()];
    let actions = run_plan(plan.clone(), all_ok);
    assert!(matches!(actions[at], DeployAction::Run(DeployStep::ApplyKueueCr)));
    assert!(matches!(actions[plan.len()], DeployAction::Finish(Ok(()))));
}

#[test]
fn harmless_failures_do_not_stop_the_run() {
    let plan = deployment_plan(plan_options());
    let lease = plan.iter().position(|s| *s == DeployStep::ClearLeaderLease).unwrap();
    let mut replies: Vec<Result<(), String>> = vec![Ok(()); lease];
    replies.push(Err("lease not found".to_string()));
    let actions = run_plan(plan.clone(), replies);
    assert!(matches!(actions[lease + 1], DeployAction::Run(DeployStep::StartImageLoad)));
}

#[test]
fn plan_shapes() {
    let o = PlanOptions { create_cluster: true, calico: true, use_bundle: false, skip_kueue_cr: true, skip_tests: false };
    let plan = deployment_plan(o);
    assert_eq!(&plan[..3], &[DeployStep::CreateCluster, DeployStep::InstallCalico, DeployStep::LabelWorkerNodes]);
    assert!(!plan.contains(&DeployStep::ApplyKueueCr));
    assert!(plan.contains(&DeployStep::InstallCrds));
    assert_eq!(plan.last(), Some(&DeployStep::RunTests));
}

#[test]
fn hanging_lookup_times_out_at_budget() {
    let p = ConditionPoller::new(12, 5, "still not there".to_string());
    let mut elapsed: u64 = 0;
    let mut sleeps = 0;
    loop {
        match p.next(elapsed, Observation::NoAnswer) {
            PollStep::Sleep(d) => {
                elapsed += d;
                sleeps += 1;
            },
            PollStep::Stop(PollError::TimedOut { waited_secs, message }) => {
                assert_eq!(waited_secs, 12);
                assert_eq!(message, "still not there");
                break;
            },
            _ => panic!("a hanging lookup must end in a timeout"),
        }
    }
    assert_eq!(sleeps, 3);
}

#[test]
fn child_deployment_never_appears() {
    let p = ConditionPoller::for_deployment_creation("kueue-controller-manager", "openshift-kueue-operator", 60);
    match p.next(60, Observation::Absent) {
        PollStep::Stop(PollError::TimedOut { message, .. }) => assert!(message.contains("may not be reconciling")),
        _ => panic!("expected a timeout"),
    }
    assert!(matches!(p.next(10, Observation::Absent), PollStep::Sleep(5)));
    assert!(matches!(p.next(10, Observation::Present), PollStep::Ready));
    assert!(matches!(p.next(10, Observation::QueryFailed("bad name".to_string())), PollStep::Stop(PollError::CommandFailed(_))));
}

#[test]
fn lookup_and_wait_failures_are_told_apart() {
    assert!(matches!(classify_lookup(true, ""), Observation::Present));
    assert!(matches!(classify_lookup(false, "Error from server (NotFound): deployments.apps \"x\" not found"), Observation::Absent));
    assert!(matches!(classify_lookup(false, "error: the server doesn't have a resource type"), Observation::QueryFailed(_)));
    assert!(matches!(classify_wait_failure("error: timed out waiting for the condition", 300), PollError::TimedOut { waited_secs: 300, .. }));
    assert!(matches!(classify_wait_failure("error: no matching resources found", 300), PollError::CommandFailed(_)));
}

#[test]
fn test_generate_skip_pattern() {
    let patterns = vec!["AppWrapper".to_string(), "PyTorch".to_string(), "JobSet".to_string()];
    let pattern = generate_skip_pattern(&patterns);
    assert!(pattern.contains("AppWrapper"));
    assert!(pattern.contains("PyTorch"));
    assert!(pattern.contains("JobSet"));
    assert!(pattern.starts_with('('));
    assert!(pattern.ends_with(')'));
    assert_eq!(pattern, "(AppWrapper|PyTorch|JobSet)");
}

#[test]
fn test_generate_skip_pattern_empty() {
    let patterns = vec![];
    let pattern = generate_skip_pattern(&patterns);
    assert_eq!(pattern, "");
}

#[test]
fn test_runs_until_pass_or_cancel() {
    let (p, a) = test_run_start();
    assert!(matches!(a, TestRunAction::RunTests));
    let (p, a) = run_tests_with_retry(p, TestRunEvent::Failed("2 failed".to_string()));
    assert_eq!(p, TestRunPhase::AwaitingRetry);
    assert!(matches!(a, TestRunAction::ReportFailure(ref m) if m == "2 failed"));
    let (p, a) = run_tests_with_retry(p, TestRunEvent::RetryRequested);
    assert!(matches!(a, TestRunAction::RunTests));
    let (p2, a) = run_tests_with_retry(p, TestRunEvent::Passed);
    assert_eq!(p2, TestRunPhase::Finished);
    assert!(matches!(a, TestRunAction::Finish(Ok(()))));
    let (_, a) = run_tests_with_retry(TestRunPhase::AwaitingRetry, TestRunEvent::Cancelled);
    assert!(matches!(a, TestRunAction::Finish(Err(TestRunError::Cancelled))));
}

#[test]
fn installer_phase_after_marker() {
    let t = jobset("v1");
    let (p, _) = t.step(InstallPhase::CheckingMarker, err("NotFound"));
    assert_eq!(p, InstallPhase::Fetching);
}

#[test]
fn upstream_deployment_plans() {
    let k = deploy_upstream_kustomize(&kustomize_options(false, true));
    assert_eq!(k, vec![UpstreamStep::ResolveSource, UpstreamStep::ResolveKubeconfig, UpstreamStep::DeployKustomize, UpstreamStep::WaitForCrds, UpstreamStep::PrintSummary]);
    let h = deploy_upstream_helm(&helm_options(true, false));
    assert_eq!(h[2], UpstreamStep::BuildAndLoadImage);
    assert_eq!(h[3], UpstreamStep::InstallDependencies);
    assert_eq!(h[4], UpstreamStep::DeployHelm);
    assert_eq!(
        helm_image_values("localhost:5000/kueue:dev"),
        vec![
            "controllerManager.manager.image.repository=localhost:5000/kueue",
            "controllerManager.manager.image.tag=dev",
            "controllerManager.manager.image.pullPolicy=Never",
        ]
    );
    assert_eq!(
        helm_image_values("kueue"),
        vec!["controllerManager.manager.image.repository=kueue", "controllerManager.manager.image.pullPolicy=Never"]
    );
    assert_eq!(wait_for_kueue_crds()[0], "crd/clusterqueues.kueue.x-k8s.io");
}

#[test]
fn upstream_test_helpers() {
    let args = ginkgo_args(Some("Job"), None, &vec!["A".to_string(), "B".to_string()]);
    assert_eq!(args, vec!["--label-filter=!disruptive", "-v", "--skip", "(A|B)", "--focus", "Job", "./test/e2e/..."]);
    assert_eq!(ginkgo_args(None, Some("x"), &vec![]), vec!["--label-filter=x", "-v", "./test/e2e/..."]);
    assert!(is_kind_cluster("kind-kueue-test\n"));
    assert!(!is_kind_cluster("prod"));
    assert!(delete_network_policies(Err("No resources found".to_string())).is_ok());
    assert_eq!(delete_network_policies(Err("forbidden".to_string())).unwrap_err(), "forbidden");
    assert_eq!(test_upstream(true)[1], UpstreamTestStep::ScaleDownOperator);
    assert_eq!(test_upstream(false)[1], UpstreamTestStep::LabelWorkerNodes);
    assert_eq!(scale_down_operator().0[2], "--replicas=0");
}

#[test]
fn controller_never_created_skips_availability_wait() {
    let plan = deployment_plan(plan_options());
    let created = plan.iter().position(|s| *s == DeployStep::WaitControllerCreated).unwrap();
    let p = ConditionPoller::for_deployment_creation("kueue-controller-manager", "openshift-kueue-operator", 60);
    let message = match p.next(60, Observation::Absent) {
        PollStep::Stop(PollError::TimedOut { message, .. }) => message,
        _ => panic!("expected a timeout"),
    };
    let mut replies: Vec<Result<(), String>> = vec![Ok(()); created];
    replies.push(Err(message));
    replies.push(Ok(()));
    let actions = run_plan(plan, replies);
    assert!(!actions.iter().any(|a| matches!(a, DeployAction::Run(DeployStep::WaitControllerAvailable))));
    assert!(matches!(&actions[created + 1], DeployAction::Finish(Err(e))
        if e.step == DeployStep::WaitControllerCreated && e.message.contains("may not be reconciling")));
}

#[test]
fn deploy_options_shape_the_plan() {
    use_options();
}

fn use_options() {
    let o = kueue_dev::deploy::DeployKindOptions {
        cluster_name: "c".to_string(),
        images_file: "related_images.json".to_string(),
        kubeconfig: None,
        skip_tests: true,
        skip_kueue_cr: false,
        kueue_frameworks: None,
        kueue_namespace: None,
        use_bundle: true,
        cert_manager_version: Some("v9".to_string()),
        jobset_version: None,
        leaderworkerset_version: None,
        prometheus_version: None,
    };
    let mut versions = kueue_dev::settings::Versions::default();
    o.apply_version_overrides(&mut versions);
    assert_eq!(versions.cert_manager, "v9");
    assert_eq!(versions.jobset, "v0.10.1");
    let p = o.plan_options(true, kueue_dev::kind::CniProvider::Calico);
    assert!(p.calico && p.create_cluster && p.use_bundle && p.skip_tests);
    let full = kueue_dev::deploy::deploy_kind_full(kueue_dev::kind::CniProvider::Default, false);
    assert!(full.create_cluster && !full.calico && !full.skip_kueue_cr);
    assert_eq!(kueue_dev::deploy::resolve_kubeconfig(Some("/kc"), false, "/d").unwrap_err(), "Kubeconfig not found: /kc");
    assert_eq!(kueue_dev::deploy::resolve_kubeconfig(None, false, "/d").unwrap(), "/d");
}

#[test]
fn test_run_shapes() {
    let o = kueue_dev::testrun::TestKindOptions {
        cluster_name: "c".to_string(),
        focus: None,
        label_filter: None,
        images_file: "i.json".to_string(),
        skip_kueue_cr: true,
        kueue_frameworks: None,
        kueue_namespace: None,
    };
    let p = kueue_dev::testrun::run_tests_kind(&o);
    assert!(p.create_cluster && p.calico && !p.use_bundle && p.skip_kueue_cr && !p.skip_tests);
    assert!(kueue_dev::testrun::run_tests("/kc", true).is_ok());
    assert_eq!(kueue_dev::testrun::run_tests("/kc", false).unwrap_err(), "Kubeconfig not found at /kc. Please create cluster first.");
}

#[test]
fn failures_are_described() {
    let e = BundleError::FailedAfterCleanup { cleanup_error: Some("timeout".to_string()), message: "exists".to_string() };
    assert_eq!(e.describe(), "operator-sdk run bundle failed after cleanup (cleanup: timeout):\nexists");
    assert_eq!(BundleError::Failed("x".to_string()).describe(), "operator-sdk run bundle failed:\nx");
    let t = jobset("v1");
    let actions = run_install(&t, vec![err("x"), ok("doc"), err("denied")]);
    match &actions[3] {
        InstallAction::Finish(Err(e)) => assert_eq!(e.describe(), "Failed to apply the manifest of jobset: denied"),
        _ => panic!("expected a failed apply"),
    }
    let e = kueue_dev::deploy::DeployError { step: DeployStep::WaitOperatorAvailable, message: "timed out".to_string() };
    assert_eq!(e.describe(), "Step 'wait for operator' failed: timed out");
}

#[test]
fn upstream_ginkgo_and_privileges() {
    let args = kueue_dev::testrun::upstream_ginkgo_args(None, Some("!slow"), &vec!["X".to_string()], "singlecluster");
    assert_eq!(
        args,
        vec!["--skip", "(X)", "-v", "--label-filter=!slow", "--junit-report=junit.xml", "--json-report=e2e.json", "./test/e2e/singlecluster/..."]
    );
    let (a, b) = kueue_dev::testrun::allow_privileged_access();
    assert_eq!(a[3], "privileged");
    assert_eq!(b[3], "anyuid");
}

#[test]
fn image_load_failure_is_its_own() {
    assert_eq!(kueue_dev::deploy::image_load_failure("pull denied"), "image load thread failed: pull denied");
}

fn kustomize_options(build_image: bool, skip_deps: bool) -> kueue_dev::upstream::DeployUpstreamKustomizeOptions {
    kueue_dev::upstream::DeployUpstreamKustomizeOptions {
        source: None,
        overlay: "default".to_string(),
        image: None,
        build_image,
        image_tag: None,
        namespace: "kueue-system".to_string(),
        kubeconfig: None,
        cluster_name: "c".to_string(),
        skip_deps,
        cert_manager_version: None,
        jobset_version: None,
        leaderworkerset_version: None,
        appwrapper_version: None,
        training_operator_version: None,
    }
}

fn helm_options(build_image: bool, skip_deps: bool) -> kueue_dev::upstream::DeployUpstreamHelmOptions {
    kueue_dev::upstream::DeployUpstreamHelmOptions {
        source: None,
        release_name: "kueue".to_string(),
        namespace: "kueue-system".to_string(),
        values_file: None,
        set_values: vec![],
        build_image,
        image_tag: None,
        kubeconfig: None,
        cluster_name: "c".to_string(),
        skip_deps,
        cert_manager_version: None,
        jobset_version: None,
        leaderworkerset_version: None,
        appwrapper_version: None,
        training_operator_version: None,
    }
}

#[test]
fn upstream_dependency_versions() {
    let versions = kueue_dev::settings::Versions::default();
    let t = kueue_dev::upstream::install_upstream_dependencies(&versions, &Some("v2".to_string()), &None, &None, &None, &Some("v1.8.1".to_string()));
    assert_eq!(t.len(), 4);
    assert_eq!(t[0].version, "v2");
    assert_eq!(t[1].version, "v0.10.1");
    assert_eq!(t[3].name, "training-operator");
}

#[test]
fn custom_resource_plan() {
    let cfg = kueue_dev::kueue::KueueConfig::default();
    let plan = kueue_dev::operator::create_kueue_cr(&cfg);
    assert_eq!(plan.manifest, cfg.to_yaml());
    assert_eq!(plan.created.timeout_secs, 60);
    assert!(plan.created.timeout_message.contains("may not be reconciling"));
    assert_eq!(plan.available.namespace.as_deref(), Some("openshift-kueue-operator"));
    assert_eq!(kueue_dev::operator::install_crds("/src"), vec!["apply", "-f", "/src/deploy/crd"]);
    let (ns, _, a) = kueue_dev::bundle::install_bundle();
    assert!(ns.contains("name: openshift-kueue-operator"));
    assert!(matches!(a, BundleAction::QueryCatalog));
}
