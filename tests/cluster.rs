use kueue_dev::container::{ContainerRuntime, ImagePlan};
use kueue_dev::kind::{cluster_listed, parse_cluster_list, ClusterStep, CniProvider, CreateAction, CreatePhase, CreateRequest, DeletePlan, KindCluster};
use kueue_dev::kubectl::{extract_version_from_log, get_operator_version, label_node, version_from_logs, wait_for_condition};

#[test]
fn test_cni_provider_from_str() {
    assert_eq!(CniProvider::from_str("calico").unwrap(), CniProvider::Calico);
    assert_eq!(CniProvider::from_str("default").unwrap(), CniProvider::Default);
    assert_eq!(CniProvider::from_str("Calico").unwrap(), CniProvider::Calico);
    assert!(CniProvider::from_str("invalid").is_err());
}

#[test]
fn invalid_cni_message() {
    assert_eq!(
        CniProvider::from_str("Weave").unwrap_err(),
        "Invalid CNI provider: Weave. Must be 'calico' or 'default'"
    );
}

#[test]
fn test_cni_provider_display() {
    assert_eq!(CniProvider::Calico.to_string(), "calico");
    assert_eq!(CniProvider::Default.to_string(), "default");
}

#[test]
fn test_generate_config() {
    let cluster = KindCluster::new("test", CniProvider::Calico);
    let config = cluster.generate_config();
    assert!(config.contains("disableDefaultCNI: true"));
    assert!(config.contains("podSubnet: \"10.244.0.0/16\""));

    let cluster = KindCluster::new("test", CniProvider::Default);
    let config = cluster.generate_config();
    assert!(config.contains("disableDefaultCNI: false"));
}

#[test]
fn config_has_two_control_planes_and_two_workers() {
    let config = KindCluster::new("t", CniProvider::Default).generate_config();
    assert_eq!(config.matches("- role: control-plane").count(), 2);
    assert_eq!(config.matches("- role: worker").count(), 2);
}

#[test]
fn cluster_listing() {
    assert!(cluster_listed("kind\n  kueue-test \nother\n", "kueue-test"));
    assert!(!cluster_listed("kueue-test-2\n", "kueue-test"));
    assert_eq!(parse_cluster_list(" a \n\nb\n"), vec!["a".to_string(), "b".to_string()]);
}

#[test]
fn existing_cluster_asks_before_recreating() {
    let c = KindCluster::new("dev", CniProvider::Calico);
    let req = CreateRequest { force: false, export_credentials: true };
    let (p, a) = c.create(req, CreatePhase::Listing, Ok("dev\n".to_string()));
    assert_eq!(p, CreatePhase::Confirming);
    assert!(matches!(a, CreateAction::Confirm));
    assert_eq!(c.recreate_question(), "Do you want to delete and recreate cluster 'dev'?");
    let (p, a) = c.create(req, p, Err("no".to_string()));
    assert_eq!(p, CreatePhase::Exporting);
    assert!(matches!(a, CreateAction::ExportCredentials));
    let (_, a) = c.create(req, p, Ok("/tmp/kc".to_string()));
    assert!(matches!(a, CreateAction::Finish(Ok(Some(ref s))) if s == "/tmp/kc"));
}

#[test]
fn absent_cluster_is_created_without_credentials() {
    let c = KindCluster::new("dev", CniProvider::Default);
    let req = CreateRequest { force: false, export_credentials: false };
    let (p, a) = c.create(req, CreatePhase::Listing, Ok("other\n".to_string()));
    assert!(matches!(a, CreateAction::CreateCluster));
    let (_, a) = c.create(req, p, Ok(String::new()));
    assert!(matches!(a, CreateAction::Finish(Ok(None))));
}

#[test]
fn forced_recreate_deletes_first() {
    let c = KindCluster::new("dev", CniProvider::Default);
    let req = CreateRequest { force: true, export_credentials: false };
    let (p, a) = c.create(req, CreatePhase::Listing, Ok("dev".to_string()));
    assert!(matches!(a, CreateAction::DeleteCluster));
    let (_, a) = c.create(req, p, Err("boom".to_string()));
    assert!(matches!(a, CreateAction::Finish(Err(ref m)) if m == "boom"));
}

#[test]
fn test_extract_operator_version() {
    let log_line = "I1120 21:25:34.555797       1 builder.go:304] openshift-kueue-operator version v0.0.0-unknown-78aa1392-78aa1392";
    let version = extract_version_from_log(log_line);
    assert_eq!(version, Some("v0.0.0-unknown-78aa1392-78aa1392".to_string()));
}

#[test]
fn test_extract_kueue_version_json() {
    let log_line = r#"{"level":"info","ts":"2025-11-20T21:26:00.770553599Z","logger":"setup","caller":"kueue/main.go:155","msg":"Initializing","gitVersion":"v0.15.0-rc.0-51-g8e20b4c71-dirty","gitCommit":"8e20b4c71caa998bd11d1d27a52d4e8d0982a341","buildDate":"2025-11-18T18:14:49Z"}"#;
    let version = extract_version_from_log(log_line);
    assert_eq!(version, Some("v0.15.0-rc.0-51-g8e20b4c71-dirty".to_string()));
}

#[test]
fn generic_version_forms() {
    assert_eq!(extract_version_from_log("Version: 1.2.3, built today"), Some("1.2.3".to_string()));
    assert_eq!(extract_version_from_log("app version=v9 extra"), Some("v9".to_string()));
    assert_eq!(extract_version_from_log("no such thing here"), None);
    assert_eq!(version_from_logs("nothing\nversion: v2\nversion: v3\n"), Some("v2".to_string()));
    assert_eq!(get_operator_version("", "version: v1").unwrap_err(), "No operator pod found");
    assert_eq!(get_operator_version("pod", "none").unwrap_err(), "Version not found in operator logs");
}

#[test]
fn wait_arguments() {
    assert_eq!(
        wait_for_condition("deployment/x", "condition=Available", Some("ns"), "300s"),
        vec!["wait", "--for", "condition=Available", "--timeout", "300s", "-n", "ns", "deployment/x"]
    );
    assert_eq!(
        wait_for_condition("nodes", "condition=Ready", None, "180s"),
        vec!["wait", "--for", "condition=Ready", "--timeout", "180s", "nodes", "--all"]
    );
    assert_eq!(label_node("n1", "a=b"), vec!["label", "nodes", "n1", "a=b", "--overwrite"]);
}

#[test]
fn test_command_names() {
    assert_eq!(ContainerRuntime::Docker.command(), "docker");
    assert_eq!(ContainerRuntime::Podman.command(), "podman");
}

#[test]
fn test_display() {
    assert_eq!(ContainerRuntime::Docker.to_string(), "docker");
    assert_eq!(ContainerRuntime::Podman.to_string(), "podman");
}

#[test]
fn runtime_detection_and_images() {
    assert_eq!(ContainerRuntime::detect(true, true).unwrap(), ContainerRuntime::Docker);
    assert_eq!(ContainerRuntime::detect(false, true).unwrap(), ContainerRuntime::Podman);
    assert!(ContainerRuntime::detect(false, false).unwrap_err().contains("docker"));
    let r = ContainerRuntime::Docker;
    assert_eq!(r.ensure_image("img", true, false).unwrap(), ImagePlan::UseLocal);
    assert_eq!(r.ensure_image("img", false, true).unwrap(), ImagePlan::Pull);
    assert!(r.ensure_image("img", false, false).unwrap_err().starts_with("Image not found in local registry: img"));
}

#[test]
fn cluster_command_plans() {
    use_plans();
}

fn use_plans() {
    let (path, steps) = kueue_dev::kind::create(CniProvider::Calico, None, Some("/cfg/kc")).unwrap();
    assert_eq!(path, "/cfg/kc");
    assert_eq!(steps, vec![ClusterStep::CreateCluster, ClusterStep::InstallCalico, ClusterStep::LabelWorkerNodes]);
    let (_, steps) = kueue_dev::kind::create(CniProvider::Default, Some("/kc"), None).unwrap();
    assert_eq!(steps[1], ClusterStep::WaitNodesReady);
    assert!(kueue_dev::kind::create(CniProvider::Default, None, None).unwrap_err().starts_with("Kubeconfig path is required"));
    assert_eq!(kueue_dev::kind::delete(false, true), DeletePlan::Absent);
    assert_eq!(kueue_dev::kind::delete(true, true), DeletePlan::Delete);
    assert_eq!(kueue_dev::kind::delete(true, false), DeletePlan::AskThenDelete);
}

#[test]
fn test_detect_runtime() {
    let result = ContainerRuntime::detect(which::which("docker").is_ok(), which::which("podman").is_ok());
    match result {
        Ok(runtime) => {
            assert!(matches!(runtime, ContainerRuntime::Docker | ContainerRuntime::Podman));
        },
        Err(msg) => {
            assert!(msg.contains("docker") || msg.contains("podman"));
        },
    }
}
