//! Deploying the operator to an existing OpenShift cluster.
use vstd::prelude::*;
use crate::dependencies::{cert_manager, jobset, leaderworkerset};
use crate::installer::InstallTarget;

verus! {

/// The cert-manager version installed on OpenShift.
pub const CERT_MANAGER_VERSION: &'static str = "v1.13.3";

/// The JobSet version installed on OpenShift.
pub const JOBSET_VERSION: &'static str = "v0.10.1";

/// The LeaderWorkerSet version installed on OpenShift.
pub const LEADERWORKERSET_VERSION: &'static str = "v0.7.0";

/// What the check of the connection to OpenShift found.
#[derive(Debug, Clone, Copy, PartialEq, Eq, Structural)]
pub enum ConnectionCheck {
    /// Logged in with the rights the deployment needs.
    Ready,
    /// Logged in, but perhaps without cluster-admin rights: ask before going on.
    AskToContinue,
    /// Not logged in.
    NotLoggedIn,
}

/// Checks the connection: the user must be logged in, and is asked before
/// going on without cluster-admin rights.
pub fn verify_connection(logged_in: bool, cluster_admin: bool) -> (r: ConnectionCheck)
    ensures
        !logged_in ==> r == ConnectionCheck::NotLoggedIn,
        logged_in && cluster_admin ==> r == ConnectionCheck::Ready,
        logged_in && !cluster_admin ==> r == ConnectionCheck::AskToContinue,
{
    if !logged_in {
        ConnectionCheck::NotLoggedIn
    } else if cluster_admin {
        ConnectionCheck::Ready
    } else {
        ConnectionCheck::AskToContinue
    }
}

/// One step of a deployment to OpenShift, run in order.
#[derive(Debug, Clone, Copy, PartialEq, Eq, Structural)]
pub enum OpenShiftStep {
    VerifyConnection,
    LoadImageConfig,
    /// Install the dependency of this index among `openshift_dependencies`.
    InstallDependency(usize),
    InstallCrds,
    InstallOperator,
}

/// The steps of a deployment to OpenShift: the dependencies one after the
/// other, then the operator's definitions and the operator.
pub open spec fn openshift_plan() -> Seq<OpenShiftStep> {
    seq![
        OpenShiftStep::VerifyConnection,
        OpenShiftStep::LoadImageConfig,
        OpenShiftStep::InstallDependency(0),
        OpenShiftStep::InstallDependency(1),
        OpenShiftStep::InstallDependency(2),
        OpenShiftStep::InstallCrds,
        OpenShiftStep::InstallOperator,
    ]
}

/// The steps of a deployment to OpenShift.
pub fn deploy_openshift() -> (r: Vec<OpenShiftStep>)
    ensures
        r@ == openshift_plan(),
{
    let v = vec![
        OpenShiftStep::VerifyConnection,
        OpenShiftStep::LoadImageConfig,
        OpenShiftStep::InstallDependency(0),
        OpenShiftStep::InstallDependency(1),
        OpenShiftStep::InstallDependency(2),
        OpenShiftStep::InstallCrds,
        OpenShiftStep::InstallOperator,
    ];
    assert(v@ =~= openshift_plan());
    v
}

/// The dependencies installed on OpenShift, at their pinned versions:
/// cert-manager, JobSet and LeaderWorkerSet.
pub fn openshift_dependencies() -> (r: Vec<InstallTarget>)
    ensures
        r@.len() == 3,
        r@[0].name@ == "cert-manager"@ && r@[0].version@ == "v1.13.3"@,
        r@[1].name@ == "jobset"@ && r@[1].version@ == "v0.10.1"@,
        r@[2].name@ == "leaderworkerset"@ && r@[2].version@ == "v0.7.0"@,
{
    proof {
        reveal_strlit("v1.13.3");
        reveal_strlit("v0.10.1");
        reveal_strlit("v0.7.0");
    }
    vec![cert_manager(CERT_MANAGER_VERSION), jobset(JOBSET_VERSION), leaderworkerset(LEADERWORKERSET_VERSION)]
}

} // verus!
