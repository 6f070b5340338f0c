//! The Operator Lifecycle Manager (OLM): whether it and the operator are
//! installed, and what installing OLM takes.
use vstd::prelude::*;
use crate::installer::Readiness;

verus! {

/// The string under `key` at the top of the JSON document `body`, if the
/// document parses and holds a string there.
pub uninterp spec fn json_string_field_of(body: Seq<char>, key: Seq<char>) -> Option<Seq<char>>;

/// Relies on serde_json::from_str, Value::get and Value::as_str: the result
/// depends on the text and the key alone.
#[verifier::external_body]
fn json_string_field(body: &str, key: &str) -> (r: Option<String>)
    ensures
        (match r {
            Some(s) => Some(s@),
            None => None,
        }) == json_string_field_of(body@, key@),
{
    serde_json::from_str::<serde_json::Value>(body).ok()?.get(key)?.as_str().map(|s| s.to_string())
}

/// OLM is installed when its namespace and both its operators exist.
pub fn is_olm_installed(namespace_found: bool, olm_operator_found: bool, catalog_operator_found: bool) -> (r: bool)
    ensures
        r == (namespace_found && olm_operator_found && catalog_operator_found),
{
    namespace_found && olm_operator_found && catalog_operator_found
}

/// The operator is installed when its namespace exists and so does its
/// deployment or its catalog source.
pub fn is_operator_installed(namespace_found: bool, deployment_found: bool, catalog_found: bool) -> (r: bool)
    ensures
        r == (namespace_found && (deployment_found || catalog_found)),
{
    namespace_found && (deployment_found || catalog_found)
}

/// The version of the latest OLM release, from the release's description.
pub fn latest_olm_version(release_json: &str) -> (r: Result<String, String>)
    ensures
        json_string_field_of(release_json@, "tag_name"@) matches Some(t) ==> (r matches Ok(v) && v@ == t),
        json_string_field_of(release_json@, "tag_name"@) is None ==> (r matches Err(m)
            && m@ == "Failed to get latest OLM version"@),
{
    match json_string_field(release_json, "tag_name") {
        Some(t) => Ok(t),
        None => Err(String::from_str("Failed to get latest OLM version")),
    }
}

/// Where a release of OLM publishes a manifest.
pub open spec fn olm_release_url(version: Seq<char>, file: Seq<char>) -> Seq<char> {
    "https://github.com/operator-framework/operator-lifecycle-manager/releases/download/"@ + version + "/"@ + file
}

/// The manifests of an OLM release: its custom resource definitions, then
/// OLM itself. Both are applied server-side.
pub fn olm_manifest_urls(version: &str) -> (r: (String, String))
    ensures
        r.0@ == olm_release_url(version@, "crds.yaml"@),
        r.1@ == olm_release_url(version@, "olm.yaml"@),
{
    let mut crds = String::from_str("https://github.com/operator-framework/operator-lifecycle-manager/releases/download/");
    crds.append(version);
    crds.append("/");
    let mut olm = crds.clone();
    crds.append("crds.yaml");
    olm.append("olm.yaml");
    (crds, olm)
}

/// A best-effort wait of five minutes for an OLM deployment.
pub open spec fn is_olm_wait(r: Readiness, deployment: Seq<char>) -> bool {
    &&& r.resource@ == "deployment/"@ + deployment
    &&& r.condition@ == "condition=Available"@
    &&& r.namespace matches Some(ns) && ns@ == "olm"@
    &&& r.timeout@ == "300s"@
    &&& r.best_effort
}

fn olm_wait(deployment: &str) -> (r: Readiness)
    ensures
        is_olm_wait(r, deployment@),
{
    let mut res = String::from_str("deployment/");
    res.append(deployment);
    Readiness {
        resource: res,
        condition: String::from_str("condition=Available"),
        namespace: Some(String::from_str("olm")),
        timeout: String::from_str("300s"),
        best_effort: true,
    }
}

/// What OLM waits on after it is applied: its catalog operator, its OLM
/// operator and its package server, none of them failing the install.
pub fn olm_readiness() -> (r: Vec<Readiness>)
    ensures
        r@.len() == 3,
        is_olm_wait(r@[0], "catalog-operator"@),
        is_olm_wait(r@[1], "olm-operator"@),
        is_olm_wait(r@[2], "packageserver"@),
{
    vec![olm_wait("catalog-operator"), olm_wait("olm-operator"), olm_wait("packageserver")]
}

/// The most lookups made while waiting for the operator's deployment to go.
pub const UNINSTALL_POLLS: u64 = 12;

/// Where the removal of an earlier operator stands.
#[derive(Debug, Clone, Copy, PartialEq, Eq, Structural)]
pub enum UninstallPhase {
    CheckingInstalled,
    CheckingTool,
    CleaningUp,
    Settling,
    /// This many lookups of the deployment were made.
    Polling(u64),
    Pausing(u64),
    DeletingNamespace,
    DeletingResources,
    Finished,
}

/// What the removal asks the caller to do next.
#[derive(Debug, Clone, Copy, PartialEq, Eq, Structural)]
pub enum UninstallAction {
    /// Is the operator installed? Reply `Ok` if so (see `is_operator_installed`).
    CheckInstalled,
    /// Is operator-sdk on the path? Reply `Ok` if so.
    CheckTool,
    /// Run operator-sdk's cleanup of the operator; its failure is only reported.
    RunCleanup,
    Sleep(u64),
    /// Look up the operator's deployment; reply `Ok` while it exists.
    LookUpDeployment,
    /// Delete the operator's namespace; failure is ignored.
    DeleteNamespace,
    /// Delete every Kueue resource; failure is ignored.
    DeleteKueueResources,
    /// Over. Without operator-sdk, an installed operator is left in place.
    Finish { removed: bool },
    Idle,
}

/// One step of removing an earlier operator.
pub open spec fn uninstall_step(phase: UninstallPhase, reply_ok: bool) -> (UninstallPhase, UninstallAction) {
    match phase {
        UninstallPhase::CheckingInstalled => if reply_ok {
            (UninstallPhase::CheckingTool, UninstallAction::CheckTool)
        } else {
            (UninstallPhase::Finished, UninstallAction::Finish { removed: false })
        },
        UninstallPhase::CheckingTool => if reply_ok {
            (UninstallPhase::CleaningUp, UninstallAction::RunCleanup)
        } else {
            (UninstallPhase::Finished, UninstallAction::Finish { removed: false })
        },
        UninstallPhase::CleaningUp => (UninstallPhase::Settling, UninstallAction::Sleep(5)),
        UninstallPhase::Settling => (UninstallPhase::Polling(1), UninstallAction::LookUpDeployment),
        UninstallPhase::Polling(n) => if reply_ok && n < UNINSTALL_POLLS {
            (UninstallPhase::Pausing(n), UninstallAction::Sleep(5))
        } else {
            (UninstallPhase::DeletingNamespace, UninstallAction::DeleteNamespace)
        },
        UninstallPhase::Pausing(n) => if n < UNINSTALL_POLLS {
            (UninstallPhase::Polling((n + 1) as u64), UninstallAction::LookUpDeployment)
        } else {
            (UninstallPhase::DeletingNamespace, UninstallAction::DeleteNamespace)
        },
        UninstallPhase::DeletingNamespace => (UninstallPhase::DeletingResources, UninstallAction::DeleteKueueResources),
        UninstallPhase::DeletingResources => (UninstallPhase::Finished, UninstallAction::Finish { removed: true }),
        UninstallPhase::Finished => (UninstallPhase::Finished, UninstallAction::Idle),
    }
}

/// The first phase and action of removing an earlier operator.
pub fn uninstall_start() -> (r: (UninstallPhase, UninstallAction))
    ensures
        r == (UninstallPhase::CheckingInstalled, UninstallAction::CheckInstalled),
{
    (UninstallPhase::CheckingInstalled, UninstallAction::CheckInstalled)
}

/// Advances the removal of an earlier operator on whether the last action
/// succeeded: the operator, if installed and operator-sdk is at hand, is
/// cleaned up, its deployment awaited gone for at most twelve lookups five
/// seconds apart, and its namespace and resources deleted.
pub fn uninstall_operator_if_exists(phase: UninstallPhase, reply_ok: bool) -> (r: (UninstallPhase, UninstallAction))
    ensures
        r == uninstall_step(phase, reply_ok),
{
    match phase {
        UninstallPhase::CheckingInstalled => if reply_ok {
            (UninstallPhase::CheckingTool, UninstallAction::CheckTool)
        } else {
            (UninstallPhase::Finished, UninstallAction::Finish { removed: false })
        },
        UninstallPhase::CheckingTool => if reply_ok {
            (UninstallPhase::CleaningUp, UninstallAction::RunCleanup)
        } else {
            (UninstallPhase::Finished, UninstallAction::Finish { removed: false })
        },
        UninstallPhase::CleaningUp => (UninstallPhase::Settling, UninstallAction::Sleep(5)),
        UninstallPhase::Settling => (UninstallPhase::Polling(1), UninstallAction::LookUpDeployment),
        UninstallPhase::Polling(n) => if reply_ok && n < UNINSTALL_POLLS {
            (UninstallPhase::Pausing(n), UninstallAction::Sleep(5))
        } else {
            (UninstallPhase::DeletingNamespace, UninstallAction::DeleteNamespace)
        },
        UninstallPhase::Pausing(n) => if n < UNINSTALL_POLLS {
            (UninstallPhase::Polling(n + 1), UninstallAction::LookUpDeployment)
        } else {
            (UninstallPhase::DeletingNamespace, UninstallAction::DeleteNamespace)
        },
        UninstallPhase::DeletingNamespace => (UninstallPhase::DeletingResources, UninstallAction::DeleteKueueResources),
        UninstallPhase::DeletingResources => (UninstallPhase::Finished, UninstallAction::Finish { removed: true }),
        UninstallPhase::Finished => (UninstallPhase::Finished, UninstallAction::Idle),
    }
}

/// Where the installation of OLM stands.
#[derive(Debug, Clone, Copy, PartialEq, Eq, Structural)]
pub enum OlmPhase {
    CheckingInstalled,
    FetchingRelease,
    Applying,
    Settling,
    /// Waiting on the readiness condition of this index (see `olm_readiness`).
    Waiting(usize),
    Finished,
}

/// What the installation of OLM asks the caller to do next.
pub enum OlmAction {
    /// Is OLM installed? Reply `Ok` if so (see `is_olm_installed`).
    CheckInstalled,
    /// Fetch the description of the latest release; reply `Ok` with it.
    FetchRelease,
    /// Download these manifests and apply them server-side, the definitions
    /// first; reply `Err` at the first failure.
    ApplyManifests { crds: String, olm: String },
    Sleep(u64),
    /// Wait on the readiness condition of this index; failure is ignored.
    Wait(usize),
    Finish(Result<(), String>),
    Idle,
}

/// Advances the installation of OLM on the reply to its last action: an
/// installed OLM is left alone; otherwise the latest release's definitions,
/// then OLM itself, are applied, and its deployments awaited.
pub fn install_olm(phase: OlmPhase, reply: Result<String, String>) -> (r: (OlmPhase, OlmAction))
    ensures
        phase == OlmPhase::CheckingInstalled ==> (reply is Ok ==> r.0 == OlmPhase::Finished && r.1 == OlmAction::Finish(Ok(())))
            && (reply is Err ==> r.0 == OlmPhase::FetchingRelease && r.1 is FetchRelease),
        phase == OlmPhase::FetchingRelease ==> (reply matches Ok(body) ==> (json_string_field_of(body@, "tag_name"@) matches Some(t)
            ==> (r.0 == OlmPhase::Applying && (r.1 matches OlmAction::ApplyManifests { crds, olm } && crds@ == olm_release_url(
            t,
            "crds.yaml"@,
        ) && olm@ == olm_release_url(t, "olm.yaml"@))))),
        phase == OlmPhase::FetchingRelease ==> (reply matches Ok(body) ==> (json_string_field_of(body@, "tag_name"@) is None
            ==> (r.0 == OlmPhase::Finished && (r.1 matches OlmAction::Finish(Err(m)) && m@ == "Failed to get latest OLM version"@)))),
        phase == OlmPhase::FetchingRelease ==> (reply matches Err(m) ==> r.0 == OlmPhase::Finished && r.1 == OlmAction::Finish(Err(m))),
        phase == OlmPhase::Applying ==> (reply matches Err(m) ==> r.0 == OlmPhase::Finished && r.1 == OlmAction::Finish(Err(m))),
        phase == OlmPhase::Applying ==> (reply is Ok ==> r.0 == OlmPhase::Settling && r.1 == OlmAction::Sleep(5)),
        phase == OlmPhase::Settling ==> r.0 == OlmPhase::Waiting(0) && r.1 == OlmAction::Wait(0),
        phase matches OlmPhase::Waiting(i) ==> (if i < 2 {
            r.0 == OlmPhase::Waiting((i + 1) as usize) && r.1 == OlmAction::Wait((i + 1) as usize)
        } else {
            r.0 == OlmPhase::Finished && r.1 == OlmAction::Finish(Ok(()))
        }),
        phase == OlmPhase::Finished ==> r.0 == OlmPhase::Finished && r.1 is Idle,
{
    match phase {
        OlmPhase::CheckingInstalled => match reply {
            Ok(_) => (OlmPhase::Finished, OlmAction::Finish(Ok(()))),
            Err(_) => (OlmPhase::FetchingRelease, OlmAction::FetchRelease),
        },
        OlmPhase::FetchingRelease => match reply {
            Ok(body) => match latest_olm_version(body.as_str()) {
                Ok(version) => {
                    let (crds, olm) = olm_manifest_urls(version.as_str());
                    (OlmPhase::Applying, OlmAction::ApplyManifests { crds, olm })
                },
                Err(m) => (OlmPhase::Finished, OlmAction::Finish(Err(m))),
            },
            Err(m) => (OlmPhase::Finished, OlmAction::Finish(Err(m))),
        },
        OlmPhase::Applying => match reply {
            Ok(_) => (OlmPhase::Settling, OlmAction::Sleep(5)),
            Err(m) => (OlmPhase::Finished, OlmAction::Finish(Err(m))),
        },
        OlmPhase::Settling => (OlmPhase::Waiting(0), OlmAction::Wait(0)),
        OlmPhase::Waiting(i) => if i < 2 {
            (OlmPhase::Waiting(i + 1), OlmAction::Wait(i + 1))
        } else {
            (OlmPhase::Finished, OlmAction::Finish(Ok(())))
        },
        OlmPhase::Finished => (OlmPhase::Finished, OlmAction::Idle),
    }
}

} // verus!
