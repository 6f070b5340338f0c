//! The user's settings and their defaults. Reading them from a file is left
//! to the program around the library.
use vstd::prelude::*;
use crate::text::views;

verus! {

/// Default values for common operations.
pub struct Defaults {
    pub cluster_name: String,
    pub cni_provider: String,
    pub images_file: String,
    /// Where the operator's source is; when absent, the working directory.
    pub kueue_operator_source_path: Option<String>,
    /// Where the cluster's credentials are written; when absent, they are not.
    pub kubeconfig_path: Option<String>,
}

/// Color and theme settings.
pub struct Colors {
    pub enabled: bool,
    pub theme: String,
}

/// Behaviour settings.
pub struct Behavior {
    pub confirm_destructive: bool,
    pub parallel_operations: bool,
    pub show_progress: bool,
}

/// The Kueue custom resource to create.
pub struct KueueSettings {
    pub name: String,
    pub namespace: String,
    pub frameworks: Vec<String>,
}

/// The test patterns to skip.
pub struct TestSettings {
    pub operator_skip_patterns: Vec<String>,
    pub upstream_skip_patterns: Vec<String>,
}

/// The versions of the dependencies to install.
pub struct Versions {
    pub cert_manager: String,
    pub jobset: String,
    pub leaderworkerset: String,
    pub calico: String,
    pub prometheus_operator: String,
}

/// All settings.
pub struct Settings {
    pub defaults: Defaults,
    pub colors: Colors,
    pub behavior: Behavior,
    pub kueue: KueueSettings,
    pub tests: TestSettings,
    pub versions: Versions,
}

pub open spec fn default_frameworks_spec() -> Seq<Seq<char>> {
    seq!["BatchJob"@, "Pod"@, "Deployment"@, "StatefulSet"@, "JobSet"@, "LeaderWorkerSet"@]
}

pub open spec fn default_operator_skip_patterns_spec() -> Seq<Seq<char>> {
    seq![
        "AppWrapper"@,
        "PyTorch"@,
        "JobSet"@,
        "LeaderWorkerSet"@,
        "JAX"@,
        "Kuberay"@,
        "Metrics"@,
        "Fair"@,
        "TopologyAwareScheduling"@,
        "Kueue visibility server"@,
        "Failed Pod can be replaced in group"@,
        "should allow to schedule a group of diverse pods"@,
        "StatefulSet created with WorkloadPriorityClass"@,
    ]
}

pub open spec fn default_upstream_skip_patterns_spec() -> Seq<Seq<char>> {
    seq![
        "AppWrapper"@,
        "PyTorch"@,
        "TrainJob"@,
        "JAX"@,
        "Kuberay"@,
        "Metrics"@,
        "Fair"@,
        "TopologyAwareScheduling"@,
        "Failed Pod can be replaced in group"@,
        "should allow to schedule a group of diverse pods"@,
        "StatefulSet created with WorkloadPriorityClass"@,
        "Kueuectl"@,
    ]
}

fn owned(s: &str) -> (r: String)
    ensures
        r@ == s@,
{
    String::from_str(s)
}

fn default_cluster_name() -> (r: String)
    ensures
        r@ == "kueue-test"@,
{
    owned("kueue-test")
}

fn default_cni_provider() -> (r: String)
    ensures
        r@ == "calico"@,
{
    owned("calico")
}

fn default_images_file() -> (r: String)
    ensures
        r@ == "related_images.json"@,
{
    owned("related_images.json")
}

fn default_true() -> (r: bool)
    ensures
        r,
{
    true
}

fn default_theme() -> (r: String)
    ensures
        r@ == "default"@,
{
    owned("default")
}

fn default_kueue_name() -> (r: String)
    ensures
        r@ == "cluster"@,
{
    owned("cluster")
}

fn default_kueue_namespace() -> (r: String)
    ensures
        r@ == "openshift-kueue-operator"@,
{
    owned("openshift-kueue-operator")
}

fn push_owned(v: &mut Vec<String>, s: &str)
    ensures
        views(final(v)@) == views(old(v)@).push(s@),
{
    let ghost before = v@;
    v.push(String::from_str(s));
    assert(views(v@) =~= views(before).push(s@));
}

fn default_kueue_frameworks() -> (r: Vec<String>)
    ensures
        views(r@) == default_frameworks_spec(),
{
    let mut v: Vec<String> = Vec::new();
    assert(views(v@) =~= Seq::<Seq<char>>::empty());
    push_owned(&mut v, "BatchJob");
    push_owned(&mut v, "Pod");
    push_owned(&mut v, "Deployment");
    push_owned(&mut v, "StatefulSet");
    push_owned(&mut v, "JobSet");
    push_owned(&mut v, "LeaderWorkerSet");
    assert(views(v@) =~= default_frameworks_spec());
    v
}

fn default_cert_manager_version() -> (r: String)
    ensures
        r@ == "v1.18.0"@,
{
    owned("v1.18.0")
}

fn default_jobset_version() -> (r: String)
    ensures
        r@ == "v0.10.1"@,
{
    owned("v0.10.1")
}

fn default_leaderworkerset_version() -> (r: String)
    ensures
        r@ == "v0.7.0"@,
{
    owned("v0.7.0")
}

fn default_calico_version() -> (r: String)
    ensures
        r@ == "v3.28.2"@,
{
    owned("v3.28.2")
}

fn default_prometheus_operator_version() -> (r: String)
    ensures
        r@ == "v0.82.2"@,
{
    owned("v0.82.2")
}

fn default_operator_skip_patterns() -> (r: Vec<String>)
    ensures
        views(r@) == default_operator_skip_patterns_spec(),
{
    let mut v: Vec<String> = Vec::new();
    assert(views(v@) =~= Seq::<Seq<char>>::empty());
    push_owned(&mut v, "AppWrapper");
    push_owned(&mut v, "PyTorch");
    push_owned(&mut v, "JobSet");
    push_owned(&mut v, "LeaderWorkerSet");
    push_owned(&mut v, "JAX");
    push_owned(&mut v, "Kuberay");
    push_owned(&mut v, "Metrics");
    push_owned(&mut v, "Fair");
    push_owned(&mut v, "TopologyAwareScheduling");
    push_owned(&mut v, "Kueue visibility server");
    push_owned(&mut v, "Failed Pod can be replaced in group");
    push_owned(&mut v, "should allow to schedule a group of diverse pods");
    push_owned(&mut v, "StatefulSet created with WorkloadPriorityClass");
    assert(views(v@) =~= default_operator_skip_patterns_spec());
    v
}

fn default_upstream_skip_patterns() -> (r: Vec<String>)
    ensures
        views(r@) == default_upstream_skip_patterns_spec(),
{
    let mut v: Vec<String> = Vec::new();
    assert(views(v@) =~= Seq::<Seq<char>>::empty());
    push_owned(&mut v, "AppWrapper");
    push_owned(&mut v, "PyTorch");
    push_owned(&mut v, "TrainJob");
    push_owned(&mut v, "JAX");
    push_owned(&mut v, "Kuberay");
    push_owned(&mut v, "Metrics");
    push_owned(&mut v, "Fair");
    push_owned(&mut v, "TopologyAwareScheduling");
    push_owned(&mut v, "Failed Pod can be replaced in group");
    push_owned(&mut v, "should allow to schedule a group of diverse pods");
    push_owned(&mut v, "StatefulSet created with WorkloadPriorityClass");
    push_owned(&mut v, "Kueuectl");
    assert(views(v@) =~= default_upstream_skip_patterns_spec());
    v
}

impl Default for Defaults {
    fn default() -> (r: Self)
        ensures
            r.cluster_name@ == "kueue-test"@,
            r.cni_provider@ == "calico"@,
            r.images_file@ == "related_images.json"@,
            r.kueue_operator_source_path is None,
            r.kubeconfig_path is None,
    {
        Defaults {
            cluster_name: default_cluster_name(),
            cni_provider: default_cni_provider(),
            images_file: default_images_file(),
            kueue_operator_source_path: None,
            kubeconfig_path: None,
        }
    }
}

impl Default for Colors {
    fn default() -> (r: Self)
        ensures
            r.enabled,
            r.theme@ == "default"@,
    {
        Colors { enabled: default_true(), theme: default_theme() }
    }
}

impl Default for Behavior {
    fn default() -> (r: Self)
        ensures
            r.confirm_destructive,
            r.parallel_operations,
            r.show_progress,
    {
        Behavior {
            confirm_destructive: default_true(),
            parallel_operations: default_true(),
            show_progress: default_true(),
        }
    }
}

impl Default for KueueSettings {
    fn default() -> (r: Self)
        ensures
            r.name@ == "cluster"@,
            r.namespace@ == "openshift-kueue-operator"@,
            views(r.frameworks@) == default_frameworks_spec(),
    {
        KueueSettings {
            name: default_kueue_name(),
            namespace: default_kueue_namespace(),
            frameworks: default_kueue_frameworks(),
        }
    }
}

impl Default for TestSettings {
    fn default() -> (r: Self)
        ensures
            views(r.operator_skip_patterns@) == default_operator_skip_patterns_spec(),
            views(r.upstream_skip_patterns@) == default_upstream_skip_patterns_spec(),
    {
        TestSettings {
            operator_skip_patterns: default_operator_skip_patterns(),
            upstream_skip_patterns: default_upstream_skip_patterns(),
        }
    }
}

impl Default for Versions {
    fn default() -> (r: Self)
        ensures
            r.cert_manager@ == "v1.18.0"@,
            r.jobset@ == "v0.10.1"@,
            r.leaderworkerset@ == "v0.7.0"@,
            r.calico@ == "v3.28.2"@,
            r.prometheus_operator@ == "v0.82.2"@,
    {
        Versions {
            cert_manager: default_cert_manager_version(),
            jobset: default_jobset_version(),
            leaderworkerset: default_leaderworkerset_version(),
            calico: default_calico_version(),
            prometheus_operator: default_prometheus_operator_version(),
        }
    }
}

impl Default for Settings {
    fn default() -> (r: Self)
        ensures
            r.defaults.cluster_name@ == "kueue-test"@,
            r.defaults.cni_provider@ == "calico"@,
            r.defaults.images_file@ == "related_images.json"@,
            r.defaults.kueue_operator_source_path is None,
            r.defaults.kubeconfig_path is None,
            r.colors.enabled,
            r.colors.theme@ == "default"@,
            r.behavior.confirm_destructive,
            r.behavior.parallel_operations,
            r.behavior.show_progress,
            r.kueue.name@ == "cluster"@,
            r.kueue.namespace@ == "openshift-kueue-operator"@,
            views(r.kueue.frameworks@) == default_frameworks_spec(),
            views(r.tests.operator_skip_patterns@) == default_operator_skip_patterns_spec(),
            views(r.tests.upstream_skip_patterns@) == default_upstream_skip_patterns_spec(),
            r.versions.cert_manager@ == "v1.18.0"@,
            r.versions.jobset@ == "v0.10.1"@,
            r.versions.leaderworkerset@ == "v0.7.0"@,
            r.versions.calico@ == "v3.28.2"@,
            r.versions.prometheus_operator@ == "v0.82.2"@,
    {
        Settings {
            defaults: Defaults::default(),
            colors: Colors::default(),
            behavior: Behavior::default(),
            kueue: KueueSettings::default(),
            tests: TestSettings::default(),
            versions: Versions::default(),
        }
    }
}

} // verus!
