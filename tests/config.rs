use kueue_dev::components::valid_components;
use kueue_dev::images::{ImageConfig, RelatedImage};
use kueue_dev::kueue::{build_kueue_config_from_settings, Framework, KueueConfig, ManagementState};
use kueue_dev::settings::Settings;
use kueue_dev::upstream::{DEFAULT_NAMESPACE, DEFAULT_OVERLAY, DEFAULT_RELEASE_NAME};

fn entry(name: &str, image: &str) -> RelatedImage {
    RelatedImage { name: name.to_string(), image: image.to_string() }
}

#[test]
fn test_valid_components() {
    let components = valid_components();
    assert!(components.contains(&"operator"));
    assert!(components.contains(&"operand"));
    assert!(components.contains(&"must-gather"));
}

#[test]
fn test_default_config() {
    let config = KueueConfig::default();
    assert_eq!(config.name, "cluster");
    assert_eq!(config.namespace, "openshift-kueue-operator");
    assert_eq!(config.management_state, ManagementState::Managed);
    assert_eq!(config.frameworks.len(), 6);
}

#[test]
fn test_builder() {
    let config = KueueConfig::builder()
        .name("test-cluster")
        .namespace("test-namespace")
        .framework(Framework::BatchJob)
        .framework(Framework::Pod)
        .build()
        .unwrap();

    assert_eq!(config.name, "test-cluster");
    assert_eq!(config.namespace, "test-namespace");
    assert_eq!(config.frameworks.len(), 2);
}

#[test]
fn test_yaml_generation() {
    let config = KueueConfig::builder()
        .name("cluster")
        .namespace("openshift-kueue-operator")
        .frameworks(vec![Framework::BatchJob, Framework::Pod])
        .build()
        .unwrap();

    let yaml = config.to_yaml();
    assert!(yaml.contains("name: cluster"));
    assert!(yaml.contains("namespace: openshift-kueue-operator"));
    assert!(yaml.contains("- BatchJob"));
    assert!(yaml.contains("- Pod"));
    assert!(yaml.contains("managementState: Managed"));
}

#[test]
fn yaml_lists_frameworks_one_per_line() {
    let config = KueueConfig::builder()
        .frameworks(vec![Framework::JobSet, Framework::LeaderWorkerSet])
        .management_state(ManagementState::Unmanaged)
        .build()
        .unwrap();
    let yaml = config.to_yaml();
    assert!(yaml.ends_with("      frameworks:\n      - JobSet\n      - LeaderWorkerSet\n"));
    assert!(yaml.contains("managementState: Unmanaged"));
}

#[test]
fn test_default_settings() {
    let settings = Settings::default();
    assert_eq!(settings.defaults.cluster_name, "kueue-test");
    assert_eq!(settings.defaults.cni_provider, "calico");
    assert!(settings.colors.enabled);
    assert!(settings.behavior.show_progress);
}

#[test]
fn default_versions_and_patterns() {
    let settings = Settings::default();
    assert_eq!(settings.versions.cert_manager, "v1.18.0");
    assert_eq!(settings.versions.prometheus_operator, "v0.82.2");
    assert_eq!(settings.tests.operator_skip_patterns.len(), 13);
    assert_eq!(settings.tests.upstream_skip_patterns.last().unwrap(), "Kueuectl");
}

#[test]
fn config_from_settings_uses_override() {
    let settings = Settings::default();
    let c = build_kueue_config_from_settings(&settings, Some(" Pod , Bogus,JobSet"), Some("ns")).unwrap();
    assert_eq!(c.namespace, "ns");
    assert_eq!(c.frameworks, vec![Framework::Pod, Framework::JobSet]);
    let c = build_kueue_config_from_settings(&settings, Some("Bogus"), None).unwrap();
    assert_eq!(c.namespace, "openshift-kueue-operator");
    assert_eq!(c.frameworks.len(), 6);
}

#[test]
fn test_default_values() {
    assert_eq!(DEFAULT_OVERLAY, "default");
    assert_eq!(DEFAULT_RELEASE_NAME, "kueue");
    assert_eq!(DEFAULT_NAMESPACE, "kueue-system");
}

#[test]
fn test_parse_image_config() {
    let config = ImageConfig::from_images(vec![
        entry("operator", "quay.io/example/operator:latest"),
        entry("operand", "quay.io/example/operand:latest"),
    ]);
    assert_eq!(config.operator().unwrap(), "quay.io/example/operator:latest");
    assert_eq!(config.operand().unwrap(), "quay.io/example/operand:latest");
}

#[test]
fn test_missing_image() {
    let config = ImageConfig::from_images(vec![entry("operator", "quay.io/example/operator:latest")]);
    assert!(config.get("nonexistent").is_err());
    assert_eq!(config.get("nonexistent").unwrap_err(), "Image 'nonexistent' not found in configuration");
}

#[test]
fn later_image_entry_wins() {
    let config = ImageConfig::from_images(vec![entry("bundle", "a"), entry("x", "b"), entry("bundle", "c")]);
    assert_eq!(config.bundle().unwrap(), "c");
    let listed = config.list();
    assert_eq!(listed.len(), 2);
    assert!(listed.contains(&("bundle".to_string(), "c".to_string())));
}
