//! The dependencies that a test environment installs, each described as a
//! target for the installer: the resource that shows it installed, where its
//! manifest comes from, and what must become ready.
use vstd::prelude::*;
use crate::installer::{InstallTarget, ManifestSource, ManifestStep, Marker, Readiness};
use crate::text::views;

verus! {

/// A wait of five minutes for a deployment to become available.
pub open spec fn is_available_wait(r: Readiness, deployment: Seq<char>, namespace: Seq<char>) -> bool {
    &&& r.resource@ == "deployment/"@ + deployment
    &&& r.condition@ == "condition=Available"@
    &&& r.namespace matches Some(ns) && ns@ == namespace
    &&& r.timeout@ == "300s"@
    &&& !r.best_effort
}

/// The marker is the namespace `ns`.
pub open spec fn is_namespace_marker(m: Marker, ns: Seq<char>) -> bool {
    m.kind@ == "namespace"@ && m.name@ == ns && m.namespace is None
}

fn available(deployment: &str, namespace: &str) -> (r: Readiness)
    ensures
        is_available_wait(r, deployment@, namespace@),
{
    let mut res = String::from_str("deployment/");
    res.append(deployment);
    Readiness {
        resource: res,
        condition: String::from_str("condition=Available"),
        namespace: Some(String::from_str(namespace)),
        timeout: String::from_str("300s"),
        best_effort: false,
    }
}

fn namespace_marker(ns: &str) -> (r: Marker)
    ensures
        is_namespace_marker(r, ns@),
{
    Marker { kind: String::from_str("namespace"), name: String::from_str(ns), namespace: None }
}

fn url(prefix: &str, version: &str, suffix: &str) -> (r: String)
    ensures
        r@ == prefix@ + version@ + suffix@,
{
    let mut s = String::from_str(prefix);
    s.append(version);
    s.append(suffix);
    s
}

/// cert-manager: marked by its namespace; its controller, webhook and CA
/// injector must become available.
pub fn cert_manager(version: &str) -> (r: InstallTarget)
    ensures
        r.name@ == "cert-manager"@,
        r.version@ == version@,
        is_namespace_marker(r.marker, "cert-manager"@),
        r.source matches ManifestSource::Download(u) && u@
            == "https://github.com/cert-manager/cert-manager/releases/download/"@ + version@ + "/cert-manager.yaml"@,
        !r.server_side,
        r.readiness@.len() == 3,
        is_available_wait(r.readiness@[0], "cert-manager"@, "cert-manager"@),
        is_available_wait(r.readiness@[1], "cert-manager-webhook"@, "cert-manager"@),
        is_available_wait(r.readiness@[2], "cert-manager-cainjector"@, "cert-manager"@),
{
    let readiness = vec![
        available("cert-manager", "cert-manager"),
        available("cert-manager-webhook", "cert-manager"),
        available("cert-manager-cainjector", "cert-manager"),
    ];
    InstallTarget {
        name: String::from_str("cert-manager"),
        version: String::from_str(version),
        marker: namespace_marker("cert-manager"),
        source: ManifestSource::Download(
            url("https://github.com/cert-manager/cert-manager/releases/download/", version, "/cert-manager.yaml"),
        ),
        server_side: false,
        readiness,
    }
}

/// JobSet: marked by its namespace; applied server-side.
pub fn jobset(version: &str) -> (r: InstallTarget)
    ensures
        r.name@ == "jobset"@,
        r.version@ == version@,
        is_namespace_marker(r.marker, "jobset-system"@),
        r.source matches ManifestSource::Download(u) && u@
            == "https://github.com/kubernetes-sigs/jobset/releases/download/"@ + version@ + "/manifests.yaml"@,
        r.server_side,
        r.readiness@.len() == 1,
        is_available_wait(r.readiness@[0], "jobset-controller-manager"@, "jobset-system"@),
{
    let readiness = vec![available("jobset-controller-manager", "jobset-system")];
    InstallTarget {
        name: String::from_str("jobset"),
        version: String::from_str(version),
        marker: namespace_marker("jobset-system"),
        source: ManifestSource::Download(
            url("https://github.com/kubernetes-sigs/jobset/releases/download/", version, "/manifests.yaml"),
        ),
        server_side: true,
        readiness,
    }
}

/// LeaderWorkerSet: marked by its namespace.
pub fn leaderworkerset(version: &str) -> (r: InstallTarget)
    ensures
        r.name@ == "leaderworkerset"@,
        r.version@ == version@,
        is_namespace_marker(r.marker, "lws-system"@),
        r.source matches ManifestSource::Download(u) && u@
            == "https://github.com/kubernetes-sigs/lws/releases/download/"@ + version@ + "/manifests.yaml"@,
        !r.server_side,
        r.readiness@.len() == 1,
        is_available_wait(r.readiness@[0], "lws-controller-manager"@, "lws-system"@),
{
    let readiness = vec![available("lws-controller-manager", "lws-system")];
    InstallTarget {
        name: String::from_str("leaderworkerset"),
        version: String::from_str(version),
        marker: namespace_marker("lws-system"),
        source: ManifestSource::Download(
            url("https://github.com/kubernetes-sigs/lws/releases/download/", version, "/manifests.yaml"),
        ),
        server_side: false,
        readiness,
    }
}

/// AppWrapper: marked by its namespace; applied server-side.
pub fn appwrapper(version: &str) -> (r: InstallTarget)
    ensures
        r.name@ == "appwrapper"@,
        r.version@ == version@,
        is_namespace_marker(r.marker, "appwrapper-system"@),
        r.source matches ManifestSource::Download(u) && u@
            == "https://github.com/project-codeflare/appwrapper/releases/download/"@ + version@ + "/install.yaml"@,
        r.server_side,
        r.readiness@.len() == 1,
        is_available_wait(r.readiness@[0], "appwrapper-controller-manager"@, "appwrapper-system"@),
{
    let readiness = vec![available("appwrapper-controller-manager", "appwrapper-system")];
    InstallTarget {
        name: String::from_str("appwrapper"),
        version: String::from_str(version),
        marker: namespace_marker("appwrapper-system"),
        source: ManifestSource::Download(
            url("https://github.com/project-codeflare/appwrapper/releases/download/", version, "/install.yaml"),
        ),
        server_side: true,
        readiness,
    }
}

/// The training operator: marked by its namespace; built with kustomize and
/// applied server-side.
pub fn training_operator(version: &str) -> (r: InstallTarget)
    ensures
        r.name@ == "training-operator"@,
        r.version@ == version@,
        is_namespace_marker(r.marker, "kubeflow"@),
        r.source matches ManifestSource::Kustomize(u) && u@
            == "github.com/kubeflow/training-operator.git/manifests/overlays/standalone?ref="@ + version@ + ""@,
        r.server_side,
        r.readiness@.len() == 1,
        is_available_wait(r.readiness@[0], "training-operator"@, "kubeflow"@),
{
    let readiness = vec![available("training-operator", "kubeflow")];
    InstallTarget {
        name: String::from_str("training-operator"),
        version: String::from_str(version),
        marker: namespace_marker("kubeflow"),
        source: ManifestSource::Kustomize(
            url("github.com/kubeflow/training-operator.git/manifests/overlays/standalone?ref=", version, ""),
        ),
        server_side: true,
        readiness,
    }
}

/// The Prometheus operator: marked by its deployment in the default
/// namespace; applied server-side.
pub fn prometheus_operator(version: &str) -> (r: InstallTarget)
    ensures
        r.name@ == "prometheus-operator"@,
        r.version@ == version@,
        r.marker.kind@ == "deployment"@,
        r.marker.name@ == "prometheus-operator"@,
        r.marker.namespace matches Some(ns) && ns@ == "default"@,
        r.source matches ManifestSource::Download(u) && u@
            == "https://github.com/prometheus-operator/prometheus-operator/releases/download/"@ + version@ + "/bundle.yaml"@,
        r.server_side,
        r.readiness@.len() == 1,
        is_available_wait(r.readiness@[0], "prometheus-operator"@, "default"@),
{
    let readiness = vec![available("prometheus-operator", "default")];
    InstallTarget {
        name: String::from_str("prometheus-operator"),
        version: String::from_str(version),
        marker: Marker {
            kind: String::from_str("deployment"),
            name: String::from_str("prometheus-operator"),
            namespace: Some(String::from_str("default")),
        },
        source: ManifestSource::Download(
            url(
                "https://github.com/prometheus-operator/prometheus-operator/releases/download/",
                version,
                "/bundle.yaml",
            ),
        ),
        server_side: true,
        readiness,
    }
}

/// The JSON patch that turns on the Prometheus operator's debug log.
pub open spec fn debug_log_patch() -> Seq<char> {
    "[{\"op\":\"add\",\"path\":\"/spec/template/spec/containers/0/args/-\",\"value\":\"--log-level=debug\"}]"@
}

/// The Prometheus instance, with its service account and access rights.
pub open spec fn prometheus_documents() -> Seq<Seq<char>> {
    seq![
        "apiVersion: v1\nkind: ServiceAccount\nmetadata:\n  name: prometheus\n"@,
        "apiVersion: rbac.authorization.k8s.io/v1\nkind: ClusterRole\nmetadata:\n  name: prometheus\nrules:\n- apiGroups: [\"\"]\n  resources:\n  - nodes\n  - nodes/metrics\n  - services\n  - endpoints\n  - pods\n  verbs: [\"get\", \"list\", \"watch\"]\n- apiGroups: [\"\"]\n  resources:\n  - configmaps\n  verbs: [\"get\"]\n- apiGroups:\n  - discovery.k8s.io\n  resources:\n  - endpointslices\n  verbs: [\"get\", \"list\", \"watch\"]\n- apiGroups:\n  - networking.k8s.io\n  resources:\n  - ingresses\n  verbs: [\"get\", \"list\", \"watch\"]\n- nonResourceURLs: [\"/metrics\"]\n  verbs: [\"get\"]\n"@,
        "apiVersion: rbac.authorization.k8s.io/v1\nkind: ClusterRoleBinding\nmetadata:\n  name: prometheus\nroleRef:\n  apiGroup: rbac.authorization.k8s.io\n  kind: ClusterRole\n  name: prometheus\nsubjects:\n- kind: ServiceAccount\n  name: prometheus\n  namespace: default\n"@,
        "apiVersion: monitoring.coreos.com/v1\nkind: Prometheus\nmetadata:\n  name: prometheus\nspec:\n  scrapeInterval: \"5s\"\n  logLevel: \"debug\"\n  serviceAccountName: prometheus\n  serviceMonitorSelector: {}\n  serviceMonitorNamespaceSelector: {}\n"@,
    ]
}

fn owned_args(a: &str, b: &str, c: &str, d: &str, e: &str, f: &str, g: &str, h: &str) -> (r: Vec<String>)
    ensures
        views(r@) == seq![a@, b@, c@, d@, e@, f@, g@, h@],
{
    let v = vec![
        String::from_str(a),
        String::from_str(b),
        String::from_str(c),
        String::from_str(d),
        String::from_str(e),
        String::from_str(f),
        String::from_str(g),
        String::from_str(h),
    ];
    assert(views(v@) =~= seq![a@, b@, c@, d@, e@, f@, g@, h@]);
    v
}

/// What follows the Prometheus operator's install: its debug log turned on
/// (harmless if it fails), then a Prometheus instance with its access
/// rights, whose pods are awaited without insisting.
pub fn create_prometheus_instance() -> (r: Vec<ManifestStep>)
    ensures
        r@.len() == 6,
        r@[0] matches ManifestStep::Command { args, best_effort } && best_effort && views(args@) == seq![
            "patch"@,
            "deployment"@,
            "prometheus-operator"@,
            "-n"@,
            "default"@,
            "--type=json"@,
            "-p"@,
            debug_log_patch(),
        ],
        forall|i: int| 1 <= i < 5 ==> ((#[trigger] r@[i]) matches ManifestStep::Apply(d) && d@ == prometheus_documents()[i - 1]),
        r@[5] matches ManifestStep::Wait(w) && w.resource@ == "pod"@ && w.condition@ == "condition=ready"@
            && (w.namespace matches Some(ns) && ns@ == "default"@) && w.timeout@ == "300s"@ && w.best_effort,
{
    let patch = owned_args(
        "patch",
        "deployment",
        "prometheus-operator",
        "-n",
        "default",
        "--type=json",
        "-p",
        "[{\"op\":\"add\",\"path\":\"/spec/template/spec/containers/0/args/-\",\"value\":\"--log-level=debug\"}]",
    );
    vec![
        ManifestStep::Command { args: patch, best_effort: true },
        ManifestStep::Apply(String::from_str("apiVersion: v1\nkind: ServiceAccount\nmetadata:\n  name: prometheus\n")),
        ManifestStep::Apply(
            String::from_str(
                "apiVersion: rbac.authorization.k8s.io/v1\nkind: ClusterRole\nmetadata:\n  name: prometheus\nrules:\n- apiGroups: [\"\"]\n  resources:\n  - nodes\n  - nodes/metrics\n  - services\n  - endpoints\n  - pods\n  verbs: [\"get\", \"list\", \"watch\"]\n- apiGroups: [\"\"]\n  resources:\n  - configmaps\n  verbs: [\"get\"]\n- apiGroups:\n  - discovery.k8s.io\n  resources:\n  - endpointslices\n  verbs: [\"get\", \"list\", \"watch\"]\n- apiGroups:\n  - networking.k8s.io\n  resources:\n  - ingresses\n  verbs: [\"get\", \"list\", \"watch\"]\n- nonResourceURLs: [\"/metrics\"]\n  verbs: [\"get\"]\n",
            ),
        ),
        ManifestStep::Apply(
            String::from_str(
                "apiVersion: rbac.authorization.k8s.io/v1\nkind: ClusterRoleBinding\nmetadata:\n  name: prometheus\nroleRef:\n  apiGroup: rbac.authorization.k8s.io\n  kind: ClusterRole\n  name: prometheus\nsubjects:\n- kind: ServiceAccount\n  name: prometheus\n  namespace: default\n",
            ),
        ),
        ManifestStep::Apply(
            String::from_str(
                "apiVersion: monitoring.coreos.com/v1\nkind: Prometheus\nmetadata:\n  name: prometheus\nspec:\n  scrapeInterval: \"5s\"\n  logLevel: \"debug\"\n  serviceAccountName: prometheus\n  serviceMonitorSelector: {}\n  serviceMonitorNamespaceSelector: {}\n",
            ),
        ),
        ManifestStep::Wait(
            Readiness {
                resource: String::from_str("pod"),
                condition: String::from_str("condition=ready"),
                namespace: Some(String::from_str("default")),
                timeout: String::from_str("300s"),
                best_effort: true,
            },
        ),
    ]
}

} // verus!
