//! Installing Calico, the network of a cluster created without its default
//! one: its operator, then its custom resources, then the waits for the
//! network to come up.
use vstd::prelude::*;
use crate::installer::{ManifestStep, Readiness};

verus! {

/// The custom resources that configure Calico: the pod network of the
/// cluster, and the API server.
pub open spec fn calico_resources() -> Seq<char> {
    "apiVersion: operator.tigera.io/v1\nkind: Installation\nmetadata:\n  name: default\nspec:\n  calicoNetwork:\n    ipPools:\n    - blockSize: 26\n      cidr: 10.244.0.0/16\n      encapsulation: VXLANCrossSubnet\n      natOutgoing: Enabled\n      nodeSelector: all()\n---\napiVersion: operator.tigera.io/v1\nkind: APIServer\nmetadata:\n  name: default\nspec: {}\n"@
}

/// The wait that `w` stands for.
pub open spec fn is_wait(w: Readiness, resource: Seq<char>, condition: Seq<char>, namespace: Option<Seq<char>>, timeout: Seq<char>, best_effort: bool) -> bool {
    &&& w.resource@ == resource
    &&& w.condition@ == condition
    &&& (match (w.namespace, namespace) {
        (Some(a), Some(b)) => a@ == b,
        (None, None) => true,
        _ => false,
    })
    &&& w.timeout@ == timeout
    &&& w.best_effort == best_effort
}

fn wait(resource: &str, condition: &str, namespace: Option<&str>, timeout: &str, best_effort: bool) -> (r: ManifestStep)
    ensures
        r matches ManifestStep::Wait(w) && is_wait(w, resource@, condition@, match namespace {
            Some(n) => Some(n@),
            None => None,
        }, timeout@, best_effort),
{
    ManifestStep::Wait(
        Readiness {
            resource: String::from_str(resource),
            condition: String::from_str(condition),
            namespace: match namespace {
                Some(n) => Some(String::from_str(n)),
                None => None,
            },
            timeout: String::from_str(timeout),
            best_effort,
        },
    )
}

/// The steps of installing Calico at `version`: create its operator, wait
/// for its two definitions, apply its resources, wait (without insisting)
/// for its pods, and wait for the nodes to be ready.
pub fn install(version: &str) -> (r: Vec<ManifestStep>)
    ensures
        r@.len() == 8,
        r@[0] matches ManifestStep::CreateFrom(u) && u@
            == "https://raw.githubusercontent.com/projectcalico/calico/"@ + version@ + "/manifests/tigera-operator.yaml"@,
        r@[1] matches ManifestStep::Wait(w) && is_wait(w, "crd/installations.operator.tigera.io"@, "condition=established"@, None, "60s"@, false),
        r@[2] matches ManifestStep::Wait(w) && is_wait(w, "crd/apiservers.operator.tigera.io"@, "condition=established"@, None, "60s"@, false),
        r@[3] matches ManifestStep::Apply(d) && d@ == calico_resources(),
        r@[4] matches ManifestStep::Wait(w) && is_wait(w, "pod"@, "condition=ready"@, Some("tigera-operator"@), "300s"@, true),
        r@[5] matches ManifestStep::Wait(w) && is_wait(w, "pod"@, "condition=ready"@, Some("calico-system"@), "300s"@, true),
        r@[6] matches ManifestStep::Wait(w) && is_wait(w, "pod"@, "condition=ready"@, Some("calico-apiserver"@), "60s"@, true),
        r@[7] matches ManifestStep::Wait(w) && is_wait(w, "nodes"@, "condition=Ready"@, None, "180s"@, false),
{
    let mut url = String::from_str("https://raw.githubusercontent.com/projectcalico/calico/");
    url.append(version);
    url.append("/manifests/tigera-operator.yaml");
    vec![
        ManifestStep::CreateFrom(url),
        wait("crd/installations.operator.tigera.io", "condition=established", None, "60s", false),
        wait("crd/apiservers.operator.tigera.io", "condition=established", None, "60s", false),
        ManifestStep::Apply(
            String::from_str(
                "apiVersion: operator.tigera.io/v1\nkind: Installation\nmetadata:\n  name: default\nspec:\n  calicoNetwork:\n    ipPools:\n    - blockSize: 26\n      cidr: 10.244.0.0/16\n      encapsulation: VXLANCrossSubnet\n      natOutgoing: Enabled\n      nodeSelector: all()\n---\napiVersion: operator.tigera.io/v1\nkind: APIServer\nmetadata:\n  name: default\nspec: {}\n",
            ),
        ),
        wait("pod", "condition=ready", Some("tigera-operator"), "300s", true),
        wait("pod", "condition=ready", Some("calico-system"), "300s", true),
        wait("pod", "condition=ready", Some("calico-apiserver"), "60s", true),
        wait("nodes", "condition=Ready", None, "180s", false),
    ]
}

} // verus!
