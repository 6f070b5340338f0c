use kueue_dev::cleanup::{cleanup, cleanup_priority_classes, cleanup_resource, cleanup_test_namespaces, cleanup_test_workloads, test_namespaces, CleanupStage};
use kueue_dev::dryrun::{exec_unless_dry_run, exec_unless_dry_run_with_default, DryRunDecision};
use kueue_dev::olm::{install_olm, is_olm_installed, is_operator_installed, latest_olm_version, olm_manifest_urls, olm_readiness, uninstall_operator_if_exists, uninstall_start, OlmAction, OlmPhase, UninstallAction, UninstallPhase};
use kueue_dev::nodes::label_worker_nodes;
use kueue_dev::operator::{operator_manifests, replace, update_deployment_images};
use kueue_dev::errors::{enhance_error, extract_cluster_name, KueueDevError};
use kueue_dev::paths::{ensure_operator_source_directory, get_operator_source_path, operator_source_path};
use kueue_dev::preflight::{count_nodes, crd_check, node_count_check, version_check, CheckResult, PreflightChecker};
use kueue_dev::prereqs::{check_container_runtime, CommandPrereq, CommonPrereqs, PrereqError, Prerequisite};
use kueue_dev::upstream::{resolve_upstream_source, validate_upstream_source, UpstreamSource};

#[test]
fn test_cluster_not_found_error() {
    let err = KueueDevError::cluster_not_found("my-cluster");
    assert!(err.message.contains("my-cluster"));
    assert_eq!(err.suggestions.len(), 2);
}

#[test]
fn test_error_with_docs() {
    let err = KueueDevError::new("test error").with_docs("https://example.com");
    assert!(err.docs_link.is_some());
}

#[test]
fn test_error_suggestions() {
    let err = KueueDevError::new("test").suggest("suggestion 1").suggest("suggestion 2");
    assert_eq!(err.suggestions.len(), 2);
}

#[test]
fn error_texts() {
    let e = KueueDevError::deployment_not_ready("op", "ns");
    assert_eq!(e.message, "Deployment ns/op failed to become ready");
    assert_eq!(e.suggestions[1], "View logs: kubectl logs -n ns -l app=op");
    let e = KueueDevError::version_mismatch("kind", "0.1", "0.2");
    assert_eq!(e.message, "kind version 0.1 does not meet requirement 0.2");
    assert_eq!(KueueDevError::connection_timeout("x").suggestions.len(), 4);
}

#[test]
fn errors_are_recognised() {
    assert_eq!(enhance_error("cluster 'dev' not found").message, "Kind cluster 'dev' not found");
    assert_eq!(enhance_error("no cluster was not found").message, "Kind cluster 'unknown' not found");
    assert_eq!(enhance_error("dial tcp: connection refused").message, "Timeout waiting for cluster");
    assert_eq!(enhance_error("Forbidden: forbidden").message, "Permission denied: cluster operation");
    assert_eq!(enhance_error("you are not logged in").message, "Not logged into an OpenShift cluster");
    let e = enhance_error("strange");
    assert_eq!(e.message, "strange");
    assert_eq!(e.suggestions.len(), 2);
    assert_eq!(extract_cluster_name("cluster 'a' and cluster 'b'"), Some("a".to_string()));
    assert_eq!(extract_cluster_name("cluster 'open"), None);
}

#[test]
fn test_check_result_is_error() {
    let pass = CheckResult::Pass("test".to_string());
    let warn = CheckResult::Warn("test".to_string());
    let fail = CheckResult::Fail("test".to_string());
    assert!(!pass.is_error());
    assert!(!warn.is_error());
    assert!(fail.is_error());
}

#[test]
fn test_check_result_is_warning() {
    let pass = CheckResult::Pass("test".to_string());
    let warn = CheckResult::Warn("test".to_string());
    let fail = CheckResult::Fail("test".to_string());
    assert!(!pass.is_warning());
    assert!(warn.is_warning());
    assert!(!fail.is_warning());
}

#[test]
fn test_preflight_checker_new() {
    let checker = PreflightChecker::new();
    assert_eq!(checker.checks.len(), 0);
}

#[test]
fn preflight_verdict() {
    let mut c = PreflightChecker::new();
    c.record(node_count_check(true, count_nodes("n1\n\nn2\n")));
    c.record(crd_check("x.io", false));
    assert_eq!(c.errors(), 0);
    assert_eq!(c.warnings(), 1);
    assert!(c.should_continue());
    c.record(CheckResult::Fail("down".to_string()));
    assert!(!c.should_continue());
    assert!(matches!(node_count_check(true, 1), CheckResult::Warn(_)));
}

#[test]
fn test_get_operator_source_path() {
    let _path = get_operator_source_path(None, None);
    assert_eq!(get_operator_source_path(Some("/cli"), Some("/cfg")), Some("/cli".to_string()));
    assert_eq!(get_operator_source_path(None, Some("/cfg")), Some("/cfg".to_string()));
}

#[test]
fn test_operator_source_path() {
    let path = operator_source_path("/src/op", "deploy");
    assert!(path.ends_with("deploy"));
    assert_eq!(path, "/src/op/deploy");
    assert_eq!(operator_source_path("/src/", "deploy"), "/src/deploy");
    assert!(ensure_operator_source_directory(None, false, false).is_err());
    assert_eq!(ensure_operator_source_directory(Some("/x"), true, true).unwrap(), "/x");
}

#[test]
fn prerequisites() {
    let p = CommandPrereq::new("echo", "Should always exist");
    assert_eq!(p.name(), "echo");
    assert_eq!(CommonPrereqs::kind().name, "kind");
    let results = vec![
        Ok("kind".to_string()),
        Err(CommonPrereqs::go().not_found()),
        Err(PrereqError::CheckFailed { name: "oc".to_string(), message: "io".to_string() }),
    ];
    let (found, missing) = CommonPrereqs::check_all(&results);
    assert_eq!(found, vec!["kind".to_string()]);
    assert_eq!(missing, vec![("go".to_string(), "Install from: https://golang.org/doc/install".to_string())]);
    assert!(check_container_runtime(false, true).is_ok());
    assert!(check_container_runtime(false, false).is_err());
}

#[test]
fn upstream_source_choice() {
    assert!(matches!(resolve_upstream_source(Some("/a"), true, Some("/b"), true, true), Ok(UpstreamSource::Cli(ref p)) if p == "/a"));
    assert!(resolve_upstream_source(Some("/a"), false, None, false, true).is_err());
    assert!(matches!(resolve_upstream_source(None, false, None, false, true), Ok(UpstreamSource::WorkingDirectory)));
    assert!(validate_upstream_source("/s", false, true).is_ok());
    assert!(validate_upstream_source("/s", false, false).is_err());
}

#[test]
fn cleanup_commands() {
    let cmds = cleanup_resource("clusterqueue", None, "clusterqueue.kueue.x-k8s.io/cq1\n\n");
    assert_eq!(cmds.len(), 2);
    assert_eq!(cmds[0], vec!["patch", "clusterqueue.kueue.x-k8s.io/cq1", "--type=merge", "-p", r#"{"metadata":{"finalizers":[]}}"#]);
    assert_eq!(cmds[1], vec!["delete", "clusterqueue", "--all", "--all-namespaces"]);
    assert!(cleanup_resource("cohort", None, "").is_empty());
    let cmds = cleanup_priority_classes("priorityclass/system-node-critical\npriorityclass/high\n");
    assert_eq!(cmds, vec![vec!["patch", "priorityclass/high", "--type=merge", "-p", r#"{"metadata":{"finalizers":[]}}"#], vec!["delete", "priorityclass/high"]]);
    let cmds = cleanup_test_namespaces("namespace/default\nnamespace/e2e-abc\n");
    assert_eq!(cmds.len(), 2);
    assert_eq!(cmds[1], vec!["delete", "namespace/e2e-abc"]);
    assert_eq!(test_namespaces("namespace/kube-system\nnamespace/pod-e2e-x\n"), vec!["pod-e2e-x".to_string()]);
    let cmds = cleanup_test_workloads("e2e-1", "workload.kueue.x-k8s.io/w\n");
    assert_eq!(cmds[0], vec!["patch", "-n", "e2e-1", "workload.kueue.x-k8s.io/w", "--type=merge", "-p", r#"{"metadata":{"finalizers":[]}}"#]);
    assert_eq!(cmds[1], vec!["delete", "workloads", "-n", "e2e-1", "--all"]);
    assert_eq!(cleanup()[0], CleanupStage::PriorityClasses);
}

#[test]
fn dry_run_decisions() {
    assert_eq!(exec_unless_dry_run(true), DryRunDecision::Describe);
    assert_eq!(exec_unless_dry_run(false), DryRunDecision::Execute);
    assert_eq!(exec_unless_dry_run_with_default(true, 7), Some(7));
    assert_eq!(exec_unless_dry_run_with_default(false, 7), None);
}

#[test]
fn olm_decisions() {
    assert_eq!(latest_olm_version(r#"{"tag_name":"v0.28.0","name":"x"}"#).unwrap(), "v0.28.0");
    assert_eq!(latest_olm_version("{}").unwrap_err(), "Failed to get latest OLM version");
    assert!(latest_olm_version("not json").is_err());
    let (crds, olm) = olm_manifest_urls("v0.28.0");
    assert!(crds.ends_with("/download/v0.28.0/crds.yaml"));
    assert!(olm.ends_with("/download/v0.28.0/olm.yaml"));
    assert!(olm_readiness().iter().all(|r| r.best_effort));
    assert!(!is_olm_installed(true, true, false));
    assert!(is_operator_installed(true, false, true));
    assert!(!is_operator_installed(false, true, true));
}

#[test]
fn worker_labels() {
    let all = "node/kind-worker2\nnode/kind-control-plane\nnode/kind-worker\nnode/kind-control-plane2\n";
    let cp = "node/kind-control-plane\nnode/kind-control-plane2\n";
    let labels = label_worker_nodes(all, cp);
    assert_eq!(
        labels,
        vec![
            ("kind-worker".to_string(), "instance-type=on-demand".to_string()),
            ("kind-worker2".to_string(), "instance-type=spot".to_string()),
        ]
    );
    assert!(label_worker_nodes("node/a\n", "node/a\n").is_empty());
}

#[test]
fn deployment_images_are_replaced() {
    assert_eq!(replace("a-b-a", "a", "xy"), "xy-b-xy");
    assert_eq!(replace("aaa", "aa", "b"), "ba");
    let doc = "image: registry.redhat.io/kueue/kueue-rhel9-operator:latest\nimagePullPolicy: Always\nvalue: registry.redhat.io/kueue/kueue-rhel9:latest\nvalue: registry.redhat.io/kueue/kueue-must-gather-rhel9:latest\n";
    let out = update_deployment_images(doc, "q/op:1", "q/operand:1", "q/mg:1").unwrap();
    assert_eq!(out, "image: q/op:1\nimagePullPolicy: IfNotPresent\nvalue: q/operand:1\nvalue: q/mg:1\n");
    assert_eq!(
        update_deployment_images("nothing", "q/op:1", "q/operand:1", "q/mg:1").unwrap_err(),
        "Failed to update operator image in deployment file"
    );
    assert_eq!(operator_manifests().last(), Some(&"07_deployment.yaml"));
}

#[test]
fn uninstall_and_olm_machines() {
    let (mut p, mut a) = uninstall_start();
    assert_eq!(a, UninstallAction::CheckInstalled);
    let mut lookups = 0;
    loop {
        let ok = match a {
            UninstallAction::LookUpDeployment => {
                lookups += 1;
                true
            },
            UninstallAction::Finish { removed } => {
                assert!(removed);
                break;
            },
            _ => true,
        };
        let (p2, a2) = uninstall_operator_if_exists(p, ok);
        p = p2;
        a = a2;
    }
    assert_eq!(lookups, 12);
    let (_, a) = uninstall_operator_if_exists(UninstallPhase::CheckingInstalled, false);
    assert_eq!(a, UninstallAction::Finish { removed: false });
    let (p, a) = install_olm(OlmPhase::FetchingRelease, Ok(r#"{"tag_name":"v0.1.0"}"#.to_string()));
    assert_eq!(p, OlmPhase::Applying);
    assert!(matches!(a, OlmAction::ApplyManifests { ref crds, .. } if crds.ends_with("v0.1.0/crds.yaml")));
    let (_, a) = install_olm(OlmPhase::CheckingInstalled, Ok(String::new()));
    assert!(matches!(a, OlmAction::Finish(Ok(()))));
}

#[test]
fn preflight_messages() {
    assert!(matches!(node_count_check(true, 4), CheckResult::Pass(ref m) if m == "Cluster has 4 nodes (recommended: >= 2)"));
    assert!(matches!(node_count_check(true, 1), CheckResult::Warn(ref m) if m == "Cluster has only 1 node(s), recommended: >= 2"));
    assert!(matches!(node_count_check(true, 120), CheckResult::Pass(ref m) if m.contains(" 120 ")));
    assert!(matches!(version_check(true, "Client Version: v1.30.0\nServer Version: v1.29.2\n"), CheckResult::Pass(ref m) if m == "Kubernetes version compatible: Client Version: v1.30.0"));
    assert!(matches!(version_check(true, "{}"), CheckResult::Warn(_)));
    assert!(matches!(version_check(false, ""), CheckResult::Warn(_)));
}

#[test]
fn preflight_summary() {
    let mut c = PreflightChecker::new();
    assert_eq!(c.display_results(), (true, "All checks passed!".to_string()));
    c.record(CheckResult::Warn("w".to_string()));
    assert_eq!(c.display_results().1, "1 warning(s). Deployment may continue but proceed with caution.");
    c.record(CheckResult::Fail("f".to_string()));
    assert_eq!(c.display_results(), (false, "1 error(s), 1 warning(s)".to_string()));
}

#[test]
fn test_exec_unless_dry_run() {
    let mut executed = false;
    if exec_unless_dry_run(false) == DryRunDecision::Execute {
        executed = true;
    }
    assert!(executed);
}

#[test]
fn test_exec_unless_dry_run_in_dry_run_mode() {
    let mut executed = false;
    if exec_unless_dry_run(true) == DryRunDecision::Execute {
        executed = true;
    }
    assert!(!executed);
}

#[test]
fn upstream_source_from_settings() {
    assert!(matches!(resolve_upstream_source(None, false, Some("/cfg"), true, false), Ok(UpstreamSource::Settings(ref p)) if p == "/cfg"));
    assert_eq!(
        resolve_upstream_source(None, false, Some("/cfg"), false, true).unwrap_err(),
        "Upstream source path from config does not exist: /cfg"
    );
    assert!(resolve_upstream_source(None, false, None, false, false).unwrap_err().starts_with("No upstream kueue source specified."));
}
