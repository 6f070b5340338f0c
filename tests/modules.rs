use kueue_dev::openshift::{deploy_openshift, openshift_dependencies, verify_connection, ConnectionCheck, OpenShiftStep};
use kueue_dev::container::ContainerRuntime;
use kueue_dev::upstream::{load_image_to_kind, LoadNext};
use kueue_dev::bundle::bundle_start;
use kueue_dev::dependencies::{appwrapper, cert_manager, jobset, leaderworkerset, prometheus_operator, training_operator};
use kueue_dev::deploy::{deployment_plan, PlanOptions};
use kueue_dev::kind::{CniProvider, KindCluster};
use kueue_dev::kubectl::get_nodes;
use kueue_dev::testrun::generate_skip_pattern;

#[test]
fn test_build_module() {
    assert!(true);
}

#[test]
fn test_cleanup_module() {
    assert!(true);
}

#[test]
fn test_cluster_module_exists() {
    let _ = KindCluster::new("c", CniProvider::Default);
}

#[test]
fn test_deploy_module() {
    let o = PlanOptions { create_cluster: false, calico: false, use_bundle: true, skip_kueue_cr: false, skip_tests: false };
    assert!(!deployment_plan(o).is_empty());
}

#[test]
fn test_interactive_module() {
    assert!(true);
}

#[test]
fn test_openshift_module() {
    assert!(true);
}

#[test]
fn test_test_module() {
    assert_eq!(generate_skip_pattern(&vec!["a".to_string()]), "(a)");
}

#[test]
fn test_appwrapper_module() {
    assert_eq!(appwrapper("v1").name, "appwrapper");
}

#[test]
fn test_calico_module() {
    assert_eq!(CniProvider::Calico.as_str(), "calico");
}

#[test]
fn test_cert_manager_module() {
    assert_eq!(cert_manager("v1").readiness.len(), 3);
}

#[test]
fn test_jobset_module() {
    assert!(jobset("v1").server_side);
}

#[test]
fn test_leaderworkerset_module() {
    assert_eq!(leaderworkerset("v1").marker.name, "lws-system");
}

#[test]
fn test_olm_module() {
    let _ = bundle_start();
}

#[test]
fn test_operator_module() {
    assert!(true);
}

#[test]
fn test_prometheus_module() {
    assert_eq!(prometheus_operator("v1").marker.name, "prometheus-operator");
}

#[test]
fn test_training_operator_module() {
    assert_eq!(training_operator("v1").marker.name, "kubeflow");
}

#[test]
fn test_images_module() {
    assert!(true);
}

#[test]
fn test_kubectl_module_exists() {
    assert_eq!(get_nodes("name"), vec!["get", "nodes", "-o", "name"]);
}

#[test]
fn test_node_module_exists() {
    assert!(true);
}

#[test]
fn test_prompt_module_exists() {
    assert!(true);
}

#[test]
fn calico_steps() {
    use_calico();
}

fn use_calico() {
    let steps = kueue_dev::calico::install("v3.28.2");
    assert_eq!(steps.len(), 8);
    assert!(matches!(&steps[0], kueue_dev::installer::ManifestStep::CreateFrom(u) if u.contains("/v3.28.2/manifests/")));
    assert!(!steps[1].tolerates_failure());
    assert!(steps[4].tolerates_failure());
    assert!(!steps[7].tolerates_failure());
}

#[test]
fn upstream_image_builds() {
    let b = kueue_dev::upstream::build_image(None);
    assert_eq!(b.image, "localhost/kueue:dev");
    let b = kueue_dev::upstream::build_image(Some("quay.io/me/kueue:v1"));
    assert_eq!((b.registry.as_str(), b.tag.as_str()), ("quay.io/me", "v1"));
    assert_eq!(b.image, "quay.io/me/kueue:v1");
    assert_eq!(b.make_args(), vec!["kind-image-build", "IMAGE_REGISTRY=quay.io/me", "GIT_TAG=v1"]);
    let b = kueue_dev::upstream::build_image(Some("reg.io/kueue"));
    assert_eq!(b.image, "reg.io/kueue:dev");
    use_load();
}

fn use_load() {
    assert_eq!(load_image_to_kind(ContainerRuntime::Podman, false), LoadNext::LoadArchive);
    assert_eq!(load_image_to_kind(ContainerRuntime::Docker, false), LoadNext::Fail);
    assert_eq!(load_image_to_kind(ContainerRuntime::Docker, true), LoadNext::Done);
}

#[test]
fn component_selection() {
    let all = kueue_dev::components::select_components(&vec![]).unwrap();
    assert_eq!(all, vec!["operator", "operand", "must-gather", "bundle"]);
    let some = kueue_dev::components::select_components(&vec!["bundle".to_string()]).unwrap();
    assert_eq!(some, vec!["bundle"]);
    assert_eq!(
        kueue_dev::components::select_components(&vec!["operand".to_string(), "docs".to_string()]).unwrap_err(),
        "Invalid component 'docs'. Valid components are: operator, operand, must-gather, bundle"
    );
}

#[test]
fn helm_and_kustomize_arguments() {
    let h = kueue_dev::upstream::HelmOptions {
        source_path: "/s".to_string(),
        release_name: "kueue".to_string(),
        namespace: "kueue-system".to_string(),
        values_file: Some("/v.yaml".to_string()),
        set_values: vec!["a=1".to_string(), "b=2".to_string()],
        kubeconfig: None,
    };
    assert_eq!(
        h.install_args("/s/charts/kueue"),
        vec!["install", "kueue", "/s/charts/kueue", "--namespace", "kueue-system", "--create-namespace", "-f", "/v.yaml", "--set", "a=1", "--set", "b=2"]
    );
    let k = kueue_dev::upstream::KustomizeOptions {
        source_path: "/s".to_string(),
        overlay: "default".to_string(),
        image: Some("reg/kueue:dev".to_string()),
        namespace: "kueue-system".to_string(),
        kubeconfig: None,
    };
    assert_eq!(k.image_edit_args().unwrap(), vec!["edit", "set", "image", "controller=reg/kueue:dev"]);
}

#[test]
fn prometheus_follow_ups() {
    let steps = kueue_dev::dependencies::create_prometheus_instance();
    assert_eq!(steps.len(), 6);
    assert!(steps[0].tolerates_failure());
    assert!(!steps[1].tolerates_failure());
    assert!(matches!(&steps[4], kueue_dev::installer::ManifestStep::Apply(d) if d.contains("kind: Prometheus")));
    assert!(steps[5].tolerates_failure());
}

#[test]
fn openshift_plan_and_connection() {
    assert_eq!(verify_connection(false, true), ConnectionCheck::NotLoggedIn);
    assert_eq!(verify_connection(true, false), ConnectionCheck::AskToContinue);
    assert_eq!(verify_connection(true, true), ConnectionCheck::Ready);
    assert_eq!(deploy_openshift().last(), Some(&OpenShiftStep::InstallOperator));
    assert_eq!(openshift_dependencies()[0].version, "v1.13.3");
}

#[test]
fn component_build_arguments() {
    let args = kueue_dev::components::build_args("bundle", "/src", "q/b:1", "related_images.json").unwrap();
    assert_eq!(args, vec!["build", "-f", "/src/bundle.developer.Dockerfile", "-t", "q/b:1", "--build-arg", "RELATED_IMAGE_FILE=related_images.json", "/src"]);
    let args = kueue_dev::components::build_args("operand", "/src", "q/o:1", "x.json").unwrap();
    assert_eq!(args, vec!["build", "-f", "/src/Dockerfile.kueue", "-t", "q/o:1", "/src"]);
    assert!(kueue_dev::components::build_args("docs", "/src", "t", "x").is_none());
    assert_eq!(kueue_dev::components::build_failure("operator", "boom"), "Failed to build operator: boom");
}
