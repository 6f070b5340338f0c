//! The local test cluster: its network choice, the configuration it is
//! created with, and the decisions of creating it.
use vstd::prelude::*;
use crate::text::{lines_of, lower_of, lowercase, split_lines, str_eq, trim, trim_blanks, views};

verus! {

/// Which network the cluster runs.
#[derive(Debug, Clone, Copy, PartialEq, Eq, Structural)]
pub enum CniProvider {
    /// The default network is left out at creation, and Calico is installed after.
    Calico,
    /// The network that kind brings.
    Default,
}

/// The name of a provider.
pub open spec fn cni_name(c: CniProvider) -> Seq<char> {
    match c {
        CniProvider::Calico => "calico"@,
        CniProvider::Default => "default"@,
    }
}

/// The message for a network name that is neither of the two.
pub open spec fn invalid_cni_message(s: Seq<char>) -> Seq<char> {
    "Invalid CNI provider: "@ + s + ". Must be 'calico' or 'default'"@
}

/// The provider that a lower-case name stands for.
pub open spec fn cni_of_lowered(lowered: Seq<char>) -> Option<CniProvider> {
    if lowered == "calico"@ {
        Some(CniProvider::Calico)
    } else if lowered == "default"@ {
        Some(CniProvider::Default)
    } else {
        None
    }
}

impl CniProvider {
    /// Reads a provider from its name, already in lower case; `given` is
    /// the name as given, for the message.
    pub fn from_lowered(lowered: &str, given: &str) -> (r: Result<CniProvider, String>)
        ensures
            cni_of_lowered(lowered@) matches Some(c) ==> r == Ok::<CniProvider, String>(c),
            cni_of_lowered(lowered@) is None ==> (r matches Err(m) && m@ == invalid_cni_message(given@)),
    {
        if str_eq(lowered, "calico") {
            Ok(CniProvider::Calico)
        } else if str_eq(lowered, "default") {
            Ok(CniProvider::Default)
        } else {
            let mut m = String::from_str("Invalid CNI provider: ");
            m.append(given);
            m.append(". Must be 'calico' or 'default'");
            Err(m)
        }
    }

    /// Reads a provider from its name, in any case.
    pub fn from_str(s: &str) -> (r: Result<CniProvider, String>)
        ensures
            cni_of_lowered(lower_of(s@)) matches Some(c) ==> r == Ok::<CniProvider, String>(c),
            cni_of_lowered(lower_of(s@)) is None ==> (r matches Err(m) && m@ == invalid_cni_message(s@)),
    {
        let lowered = lowercase(s);
        Self::from_lowered(lowered.as_str(), s)
    }

    /// The provider's name.
    pub fn as_str(&self) -> (r: &'static str)
        ensures
            r@ == cni_name(*self),
    {
        match self {
            CniProvider::Calico => "calico",
            CniProvider::Default => "default",
        }
    }

    /// The provider's name, owned.
    pub fn to_string(&self) -> (r: String)
        ensures
            r@ == cni_name(*self),
    {
        String::from_str(self.as_str())
    }
}

/// A kind cluster: its name and its network.
pub struct KindCluster {
    pub name: String,
    pub cni_provider: CniProvider,
}

/// The configuration text up to the network switch.
pub open spec fn config_head() -> Seq<char> {
    "kind: Cluster\napiVersion: kind.x-k8s.io/v1alpha4\nnetworking:\n  disableDefaultCNI: "@
}

/// The configuration text after the network switch: the subnets, and two
/// control-plane nodes and two workers.
pub open spec fn config_tail() -> Seq<char> {
    "\n  podSubnet: \"10.244.0.0/16\"\n  serviceSubnet: \"10.96.0.0/16\"\nnodes:\n- role: control-plane\n  kubeadmConfigPatches:\n  - |\n    apiVersion: kubeadm.k8s.io/v1beta3\n    kind: ClusterConfiguration\n    apiServer:\n      extraArgs:\n        v: \"4\"\n- role: control-plane\n  kubeadmConfigPatches:\n  - |\n    apiVersion: kubeadm.k8s.io/v1beta3\n    kind: ClusterConfiguration\n    apiServer:\n      extraArgs:\n        v: \"4\"\n- role: worker\n- role: worker\n"@
}

/// The configuration a cluster with this network is created with.
pub open spec fn cluster_config(cni: CniProvider) -> Seq<char> {
    config_head() + (if cni == CniProvider::Calico { "true"@ } else { "false"@ }) + config_tail()
}

/// Whether `name` stands alone, blanks aside, on some line of `listing`.
pub open spec fn listed(listing: Seq<char>, name: Seq<char>) -> bool {
    exists|i: int| 0 <= i < lines_of(listing).len() && trim(#[trigger] lines_of(listing)[i]) == name
}

/// The names on the lines of a listing: each line trimmed, empty ones left out.
pub open spec fn names_in(lines: Seq<Seq<char>>) -> Seq<Seq<char>>
    decreases lines.len(),
{
    if lines.len() == 0 {
        Seq::empty()
    } else {
        let before = names_in(lines.drop_last());
        if trim(lines.last()).len() == 0 {
            before
        } else {
            before.push(trim(lines.last()))
        }
    }
}

/// Whether a listing of clusters, one name a line, holds `name`.
pub fn cluster_listed(listing: &str, name: &str) -> (r: bool)
    ensures
        r == listed(listing@, name@),
{
    let lines = split_lines(listing);
    let mut i: usize = 0;
    while i < lines.len()
        invariant
            views(lines@) == lines_of(listing@),
            i <= lines@.len(),
            forall|j: int| 0 <= j < i ==> trim(#[trigger] lines_of(listing@)[j]) != name@,
        decreases lines@.len() - i,
    {
        let t = trim_blanks(lines[i].as_str());
        assert(lines_of(listing@)[i as int] == lines@[i as int]@);
        if str_eq(t.as_str(), name) {
            return true;
        }
        i += 1;
    }
    false
}

/// The cluster names of a listing, one a line.
pub fn parse_cluster_list(listing: &str) -> (r: Vec<String>)
    ensures
        views(r@) == names_in(lines_of(listing@)),
{
    let lines = split_lines(listing);
    let mut names: Vec<String> = Vec::new();
    let mut i: usize = 0;
    while i < lines.len()
        invariant
            views(lines@) == lines_of(listing@),
            i <= lines@.len(),
            views(names@) == names_in(lines_of(listing@).take(i as int)),
        decreases lines@.len() - i,
    {
        assert(lines_of(listing@).take(i + 1).drop_last() =~= lines_of(listing@).take(i as int));
        assert(lines_of(listing@)[i as int] == lines@[i as int]@);
        let t = trim_blanks(lines[i].as_str());
        if !t.as_str().is_empty() {
            let ghost before = names@;
            names.push(t);
            assert(views(names@) =~= views(before).push(t@));
        }
        i += 1;
    }
    assert(lines_of(listing@).take(lines@.len() as int) =~= lines_of(listing@));
    names
}

/// The question put before an existing cluster is deleted and recreated.
pub open spec fn recreate_question(name: Seq<char>) -> Seq<char> {
    "Do you want to delete and recreate cluster '"@ + name + "'?"@
}

/// Where the creation of a cluster stands.
#[derive(Debug, Clone, Copy, PartialEq, Eq, Structural)]
pub enum CreatePhase {
    Listing,
    Confirming,
    Deleting,
    Creating,
    Exporting,
    Finished,
}

/// What the creation of a cluster asks the caller to do next.
pub enum CreateAction {
    /// List the clusters; reply `Ok` with the listing.
    ListClusters,
    /// Ask the user whether to recreate the cluster (`recreate_question`);
    /// reply `Ok` for yes.
    Confirm,
    DeleteCluster,
    /// Create the cluster with its configuration (`generate_config`).
    CreateCluster,
    /// Write the cluster's credentials; reply `Ok` with the path written.
    ExportCredentials,
    /// Over: the path of the credentials, if they were written.
    Finish(Result<Option<String>, String>),
    Idle,
}

/// What a creation is asked to do besides creating.
#[derive(Debug, Clone, Copy, PartialEq, Eq, Structural)]
pub struct CreateRequest {
    /// Recreate an existing cluster without asking.
    pub force: bool,
    /// Write the cluster's credentials once it stands.
    pub export_credentials: bool,
}

/// The step after the cluster stands, created or kept.
pub open spec fn after_cluster_ready(req: CreateRequest) -> (CreatePhase, CreateAction) {
    if req.export_credentials {
        (CreatePhase::Exporting, CreateAction::ExportCredentials)
    } else {
        (CreatePhase::Finished, CreateAction::Finish(Ok(None)))
    }
}

/// One step of a cluster's creation.
pub open spec fn create_step(c: KindCluster, req: CreateRequest, phase: CreatePhase, reply: Result<String, String>) -> (CreatePhase, CreateAction) {
    match phase {
        CreatePhase::Listing => match reply {
            Ok(listing) => if !listed(listing@, c.name@) {
                (CreatePhase::Creating, CreateAction::CreateCluster)
            } else if req.force {
                (CreatePhase::Deleting, CreateAction::DeleteCluster)
            } else {
                (CreatePhase::Confirming, CreateAction::Confirm)
            },
            Err(m) => (CreatePhase::Finished, CreateAction::Finish(Err(m))),
        },
        CreatePhase::Confirming => match reply {
            Ok(_) => (CreatePhase::Deleting, CreateAction::DeleteCluster),
            Err(_) => after_cluster_ready(req),
        },
        CreatePhase::Deleting => match reply {
            Ok(_) => (CreatePhase::Creating, CreateAction::CreateCluster),
            Err(m) => (CreatePhase::Finished, CreateAction::Finish(Err(m))),
        },
        CreatePhase::Creating => match reply {
            Ok(_) => after_cluster_ready(req),
            Err(m) => (CreatePhase::Finished, CreateAction::Finish(Err(m))),
        },
        CreatePhase::Exporting => match reply {
            Ok(path) => (CreatePhase::Finished, CreateAction::Finish(Ok(Some(path)))),
            Err(m) => (CreatePhase::Finished, CreateAction::Finish(Err(m))),
        },
        CreatePhase::Finished => (CreatePhase::Finished, CreateAction::Idle),
    }
}

impl KindCluster {
    pub fn new(name: &str, cni_provider: CniProvider) -> (r: Self)
        ensures
            r.name@ == name@,
            r.cni_provider == cni_provider,
    {
        KindCluster { name: String::from_str(name), cni_provider }
    }

    /// The question put before this cluster is deleted and recreated.
    pub fn recreate_question(&self) -> (r: String)
        ensures
            r@ == recreate_question(self.name@),
    {
        let mut s = String::from_str("Do you want to delete and recreate cluster '");
        s.append(self.name.as_str());
        s.append("'?");
        s
    }

    /// The first phase and action of creating this cluster.
    pub fn create_start(&self) -> (r: (CreatePhase, CreateAction))
        ensures
            r.0 == CreatePhase::Listing,
            r.1 is ListClusters,
    {
        (CreatePhase::Listing, CreateAction::ListClusters)
    }

    /// Advances the creation of this cluster on the reply to its last action.
    pub fn create(&self, req: CreateRequest, phase: CreatePhase, reply: Result<String, String>) -> (r: (CreatePhase, CreateAction))
        ensures
            r == create_step(*self, req, phase, reply),
    {
        match phase {
            CreatePhase::Listing => match reply {
                Ok(listing) => if !cluster_listed(listing.as_str(), self.name.as_str()) {
                    (CreatePhase::Creating, CreateAction::CreateCluster)
                } else if req.force {
                    (CreatePhase::Deleting, CreateAction::DeleteCluster)
                } else {
                    (CreatePhase::Confirming, CreateAction::Confirm)
                },
                Err(m) => (CreatePhase::Finished, CreateAction::Finish(Err(m))),
            },
            CreatePhase::Confirming => match reply {
                Ok(_) => (CreatePhase::Deleting, CreateAction::DeleteCluster),
                Err(_) => Self::ready(req),
            },
            CreatePhase::Deleting => match reply {
                Ok(_) => (CreatePhase::Creating, CreateAction::CreateCluster),
                Err(m) => (CreatePhase::Finished, CreateAction::Finish(Err(m))),
            },
            CreatePhase::Creating => match reply {
                Ok(_) => Self::ready(req),
                Err(m) => (CreatePhase::Finished, CreateAction::Finish(Err(m))),
            },
            CreatePhase::Exporting => match reply {
                Ok(path) => (CreatePhase::Finished, CreateAction::Finish(Ok(Some(path)))),
                Err(m) => (CreatePhase::Finished, CreateAction::Finish(Err(m))),
            },
            CreatePhase::Finished => (CreatePhase::Finished, CreateAction::Idle),
        }
    }

    fn ready(req: CreateRequest) -> (r: (CreatePhase, CreateAction))
        ensures
            r == after_cluster_ready(req),
    {
        if req.export_credentials {
            (CreatePhase::Exporting, CreateAction::ExportCredentials)
        } else {
            (CreatePhase::Finished, CreateAction::Finish(Ok(None)))
        }
    }

    /// The configuration the cluster is created with.
    pub fn generate_config(&self) -> (r: String)
        ensures
            r@ == cluster_config(self.cni_provider),
    {
        let mut s = String::from_str(
            "kind: Cluster\napiVersion: kind.x-k8s.io/v1alpha4\nnetworking:\n  disableDefaultCNI: ",
        );
        if self.cni_provider == CniProvider::Calico {
            s.append("true");
        } else {
            s.append("false");
        }
        s.append(
            "\n  podSubnet: \"10.244.0.0/16\"\n  serviceSubnet: \"10.96.0.0/16\"\nnodes:\n- role: control-plane\n  kubeadmConfigPatches:\n  - |\n    apiVersion: kubeadm.k8s.io/v1beta3\n    kind: ClusterConfiguration\n    apiServer:\n      extraArgs:\n        v: \"4\"\n- role: control-plane\n  kubeadmConfigPatches:\n  - |\n    apiVersion: kubeadm.k8s.io/v1beta3\n    kind: ClusterConfiguration\n    apiServer:\n      extraArgs:\n        v: \"4\"\n- role: worker\n- role: worker\n",
        );
        s
    }
}

/// One step of creating a cluster for development.
#[derive(Debug, Clone, Copy, PartialEq, Eq, Structural)]
pub enum ClusterStep {
    /// Create the cluster and write its credentials (see `KindCluster::create`).
    CreateCluster,
    InstallCalico,
    /// Wait, at most three minutes, for the nodes to be ready.
    WaitNodesReady,
    LabelWorkerNodes,
}

/// The steps of creating a cluster: the network is Calico's or, with the
/// default network, the nodes are awaited; then the workers are labelled.
pub open spec fn cluster_create_steps(cni: CniProvider) -> Seq<ClusterStep> {
    seq![
        ClusterStep::CreateCluster,
        if cni == CniProvider::Calico { ClusterStep::InstallCalico } else { ClusterStep::WaitNodesReady },
        ClusterStep::LabelWorkerNodes,
    ]
}

/// The message when no path for the credentials is known.
pub open spec fn kubeconfig_required_message() -> Seq<char> {
    "Kubeconfig path is required. Provide it via --kubeconfig flag or set 'kubeconfig_path' in config file"@
}

/// Plans the creation of a cluster: where its credentials go (the path
/// given, else the configured one; one is required) and the steps to run.
pub fn create(cni: CniProvider, kubeconfig: Option<&str>, configured: Option<&str>) -> (r: Result<(String, Vec<ClusterStep>), String>)
    ensures
        kubeconfig is None && configured is None ==> (r matches Err(m) && m@ == kubeconfig_required_message()),
        kubeconfig matches Some(k) ==> (r matches Ok((p, steps)) && p@ == k@ && steps@ == cluster_create_steps(cni)),
        kubeconfig is None ==> (configured matches Some(k) ==> (r matches Ok((p, steps)) && p@ == k@ && steps@
            == cluster_create_steps(cni))),
{
    let path = match kubeconfig {
        Some(k) => String::from_str(k),
        None => match configured {
            Some(k) => String::from_str(k),
            None => {
                return Err(
                    String::from_str(
                        "Kubeconfig path is required. Provide it via --kubeconfig flag or set 'kubeconfig_path' in config file",
                    ),
                );
            },
        },
    };
    let steps = vec![
        ClusterStep::CreateCluster,
        if cni == CniProvider::Calico { ClusterStep::InstallCalico } else { ClusterStep::WaitNodesReady },
        ClusterStep::LabelWorkerNodes,
    ];
    assert(steps@ =~= cluster_create_steps(cni));
    Ok((path, steps))
}

/// What deleting a cluster comes to.
#[derive(Debug, Clone, Copy, PartialEq, Eq, Structural)]
pub enum DeletePlan {
    /// There is no such cluster: nothing to do.
    Absent,
    /// Delete it.
    Delete,
    /// Ask the user first, and delete only on yes.
    AskThenDelete,
}

/// Decides the deletion of a cluster: an absent one is left alone, and one
/// that exists is deleted at once only when forced.
pub fn delete(exists: bool, force: bool) -> (r: DeletePlan)
    ensures
        !exists ==> r == DeletePlan::Absent,
        exists && force ==> r == DeletePlan::Delete,
        exists && !force ==> r == DeletePlan::AskThenDelete,
{
    if !exists {
        DeletePlan::Absent
    } else if force {
        DeletePlan::Delete
    } else {
        DeletePlan::AskThenDelete
    }
}

} // verus!
