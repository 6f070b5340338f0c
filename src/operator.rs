//! Installing the operator from its manifests: the order they are applied
//! in, and the deployment manifest pointed at the images under test.
use vstd::prelude::*;
use crate::text::{contains, contains_str, find_at, find_spec, views};
use crate::installer::Readiness;
use crate::kueue::{kueue_yaml, KueueConfig};
use crate::paths::{joined_path, operator_source_path};
use crate::poller::{creation_timeout_message, ConditionPoller, POLL_INTERVAL_SECS};

verus! {

/// `s` from `start` on, with every occurrence of `from` replaced by `to`,
/// occurrences taken left to right without overlap.
pub open spec fn replace_from(s: Seq<char>, from: Seq<char>, to: Seq<char>, start: int) -> Seq<char>
    decreases s.len() - start,
{
    if from.len() == 0 || start < 0 || start > s.len() {
        s.subrange(start, s.len() as int)
    } else {
        match find_spec(s, from, start) {
            None => s.subrange(start, s.len() as int),
            Some(i) => if i < start || i + from.len() > s.len() {
                s.subrange(start, s.len() as int)
            } else {
                s.subrange(start, i) + to + replace_from(s, from, to, i + from.len())
            },
        }
    }
}

/// `s` with every occurrence of `from` replaced by `to`.
pub open spec fn replace_all(s: Seq<char>, from: Seq<char>, to: Seq<char>) -> Seq<char> {
    replace_from(s, from, to, 0)
}

proof fn lemma_find_spec_bounds(s: Seq<char>, p: Seq<char>, from: int)
    ensures
        find_spec(s, p, from) matches Some(i) ==> from <= i && i + p.len() <= s.len(),
    decreases s.len() + 1 - from,
{
    if !(from < 0 || from + p.len() > s.len()) && !crate::text::occurs_at(s, p, from) {
        lemma_find_spec_bounds(s, p, from + 1);
    }
}

/// Replaces every occurrence of a non-empty `from` in `s` by `to`.
pub fn replace(s: &str, from: &str, to: &str) -> (r: String)
    requires
        from@.len() > 0,
    ensures
        r@ == replace_all(s@, from@, to@),
{
    let n = s.unicode_len();
    let m = from.unicode_len();
    let mut out = String::new();
    let mut start: usize = 0;
    while start <= n
        invariant
            n == s@.len(),
            m == from@.len(),
            m > 0,
            start <= n,
            out@ + replace_from(s@, from@, to@, start as int) == replace_all(s@, from@, to@),
        decreases n - start,
    {
        proof {
            lemma_find_spec_bounds(s@, from@, start as int);
        }
        match find_at(s, from, start) {
            None => {
                out.append(s.substring_char(start, n));
                assert(out@ == replace_all(s@, from@, to@));
                return out;
            },
            Some(i) => {
                let ghost before = out@;
                out.append(s.substring_char(start, i));
                out.append(to);
                assert(out@ == before + s@.subrange(start as int, i as int) + to@);
                assert(out@ + replace_from(s@, from@, to@, (i + m) as int) =~= before + replace_from(
                    s@,
                    from@,
                    to@,
                    start as int,
                ));
                start = i + m;
            },
        }
    }
    out
}

/// The manifests of the operator, in the order they are applied.
pub open spec fn operator_manifest_names() -> Seq<Seq<char>> {
    seq![
        "01_namespace.yaml"@,
        "02_clusterrole.yaml"@,
        "02_role.yaml"@,
        "03_clusterrolebinding.yaml"@,
        "03_rolebinding.yaml"@,
        "04_serviceaccount.yaml"@,
        "05_clusterrole_kueue-batch.yaml"@,
        "06_clusterrole_kueue-admin.yaml"@,
        "07_deployment.yaml"@,
    ]
}

/// The manifests of the operator, in the order they are applied; one that
/// is missing is skipped.
pub fn operator_manifests() -> (r: Vec<&'static str>)
    ensures
        r@.len() == 9,
        forall|i: int| 0 <= i < 9 ==> (#[trigger] r@[i])@ == operator_manifest_names()[i],
{
    vec![
        "01_namespace.yaml",
        "02_clusterrole.yaml",
        "02_role.yaml",
        "03_clusterrolebinding.yaml",
        "03_rolebinding.yaml",
        "04_serviceaccount.yaml",
        "05_clusterrole_kueue-batch.yaml",
        "06_clusterrole_kueue-admin.yaml",
        "07_deployment.yaml",
    ]
}

/// The deployment manifest with the images under test in place of the
/// released ones, pulled only when not present.
pub open spec fn retargeted(content: Seq<char>, operator: Seq<char>, operand: Seq<char>, must_gather: Seq<char>) -> Seq<char> {
    let c1 = replace_all(content, "image: registry.redhat.io/kueue/kueue-rhel9-operator:latest"@, "image: "@ + operator);
    let c2 = replace_all(c1, "value: registry.redhat.io/kueue/kueue-rhel9:latest"@, "value: "@ + operand);
    let c3 = replace_all(c2, "value: registry.redhat.io/kueue/kueue-must-gather-rhel9:latest"@, "value: "@ + must_gather);
    replace_all(c3, "imagePullPolicy: Always"@, "imagePullPolicy: IfNotPresent"@)
}

fn prefixed(prefix: &str, s: &str) -> (r: String)
    ensures
        r@ == prefix@ + s@,
{
    let mut r = String::from_str(prefix);
    r.append(s);
    r
}

/// Points the deployment manifest at the images under test. It fails when
/// an image does not appear in the result, which means the manifest did not
/// hold the reference it replaces.
pub fn update_deployment_images(content: &str, operator: &str, operand: &str, must_gather: &str) -> (r: Result<String, String>)
    ensures
        r is Ok <==> (contains(retargeted(content@, operator@, operand@, must_gather@), operator@) && contains(
            retargeted(content@, operator@, operand@, must_gather@),
            operand@,
        ) && contains(retargeted(content@, operator@, operand@, must_gather@), must_gather@)),
        r matches Ok(s) ==> s@ == retargeted(content@, operator@, operand@, must_gather@),
        r matches Err(m) ==> !contains(retargeted(content@, operator@, operand@, must_gather@), operator@) ==> m@
            == "Failed to update operator image in deployment file"@,
{
    proof {
        reveal_strlit("image: registry.redhat.io/kueue/kueue-rhel9-operator:latest");
        reveal_strlit("value: registry.redhat.io/kueue/kueue-rhel9:latest");
        reveal_strlit("value: registry.redhat.io/kueue/kueue-must-gather-rhel9:latest");
        reveal_strlit("imagePullPolicy: Always");
    }
    let op = prefixed("image: ", operator);
    let c1 = replace(content, "image: registry.redhat.io/kueue/kueue-rhel9-operator:latest", op.as_str());
    let od = prefixed("value: ", operand);
    let c2 = replace(c1.as_str(), "value: registry.redhat.io/kueue/kueue-rhel9:latest", od.as_str());
    let mg = prefixed("value: ", must_gather);
    let c3 = replace(c2.as_str(), "value: registry.redhat.io/kueue/kueue-must-gather-rhel9:latest", mg.as_str());
    let c4 = replace(c3.as_str(), "imagePullPolicy: Always", "imagePullPolicy: IfNotPresent");
    if !contains_str(c4.as_str(), operator) {
        return Err(String::from_str("Failed to update operator image in deployment file"));
    }
    if !contains_str(c4.as_str(), operand) {
        return Err(String::from_str("Failed to update operand image in deployment file"));
    }
    if !contains_str(c4.as_str(), must_gather) {
        return Err(String::from_str("Failed to update must-gather image in deployment file"));
    }
    Ok(c4)
}

/// The arguments that apply the operator's resource definitions from the
/// source tree at `root`.
pub fn install_crds(root: &str) -> (r: Vec<String>)
    ensures
        views(r@) == seq!["apply"@, "-f"@, joined_path(root@, "deploy/crd"@)],
{
    let dir = operator_source_path(root, "deploy/crd");
    let mut v: Vec<String> = Vec::new();
    v.push(String::from_str("apply"));
    v.push(String::from_str("-f"));
    v.push(dir);
    assert(views(v@) =~= seq!["apply"@, "-f"@, joined_path(root@, "deploy/crd"@)]);
    v
}

/// How a Kueue custom resource is created: the manifest to apply, the wait
/// for the operator to create the controller manager's deployment, and the
/// wait for that deployment to become available.
pub struct KueueCrPlan {
    pub manifest: String,
    pub created: ConditionPoller,
    pub available: Readiness,
}

/// The seconds allowed for the operator to create the controller manager.
pub const CONTROLLER_CREATION_SECS: u64 = 60;

/// Plans the creation of the custom resource `config`: the controller
/// manager is awaited in its namespace, a minute for it to be created and
/// five for it to become available.
pub fn create_kueue_cr(config: &KueueConfig) -> (r: KueueCrPlan)
    ensures
        r.manifest@ == kueue_yaml(config.name@, config.namespace@, config.management_state, config.frameworks@),
        r.created.wf(),
        r.created.timeout_secs == CONTROLLER_CREATION_SECS,
        r.created.interval_secs == POLL_INTERVAL_SECS,
        r.created.timeout_message@ == creation_timeout_message("kueue-controller-manager"@, config.namespace@),
        r.available.resource@ == "deployment/kueue-controller-manager"@,
        r.available.condition@ == "condition=Available"@,
        r.available.namespace matches Some(ns) && ns@ == config.namespace@,
        r.available.timeout@ == "300s"@,
        !r.available.best_effort,
{
    KueueCrPlan {
        manifest: config.to_yaml(),
        created: ConditionPoller::for_deployment_creation(
            "kueue-controller-manager",
            config.namespace.as_str(),
            CONTROLLER_CREATION_SECS,
        ),
        available: Readiness {
            resource: String::from_str("deployment/kueue-controller-manager"),
            condition: String::from_str("condition=Available"),
            namespace: Some(config.namespace.clone()),
            timeout: String::from_str("300s"),
            best_effort: false,
        },
    }
}

} // verus!
