//! The tools a command needs, and the sorting of what was found and what is
//! missing. Looking for the tools on the system is left to the program
//! around the library.
use vstd::prelude::*;

verus! {

/// Why a prerequisite is not available.
pub enum PrereqError {
    NotFound { name: String, hint: String },
    CheckFailed { name: String, message: String },
}

/// A tool that must be installed.
pub trait Prerequisite {
    /// The tool's name.
    fn name(&self) -> &str;

    /// How to install it.
    fn install_hint(&self) -> &str;
}

/// A prerequisite that is a command on the path.
pub struct CommandPrereq {
    pub name: String,
    pub hint: String,
}

impl CommandPrereq {
    pub fn new(name: &str, hint: &str) -> (r: Self)
        ensures
            r.name@ == name@,
            r.hint@ == hint@,
    {
        CommandPrereq { name: String::from_str(name), hint: String::from_str(hint) }
    }

    /// The error for this tool when it cannot be found.
    pub fn not_found(&self) -> (r: PrereqError)
        ensures
            r == (PrereqError::NotFound { name: self.name, hint: self.hint }),
    {
        PrereqError::NotFound { name: self.name.clone(), hint: self.hint.clone() }
    }
}

impl Prerequisite for CommandPrereq {
    fn name(&self) -> &str {
        self.name.as_str()
    }

    fn install_hint(&self) -> &str {
        self.hint.as_str()
    }
}

/// The prerequisites that the commands share.
pub struct CommonPrereqs;

impl CommonPrereqs {
    pub fn kind() -> (r: CommandPrereq)
        ensures
            r.name@ == "kind"@,
            r.hint@ == "Install from: https://kind.sigs.k8s.io/docs/user/quick-start/#installation"@,
    {
        CommandPrereq::new("kind", "Install from: https://kind.sigs.k8s.io/docs/user/quick-start/#installation")
    }

    pub fn kubectl() -> (r: CommandPrereq)
        ensures
            r.name@ == "kubectl"@,
            r.hint@ == "Install from: https://kubernetes.io/docs/tasks/tools/"@,
    {
        CommandPrereq::new("kubectl", "Install from: https://kubernetes.io/docs/tasks/tools/")
    }

    pub fn go() -> (r: CommandPrereq)
        ensures
            r.name@ == "go"@,
            r.hint@ == "Install from: https://golang.org/doc/install"@,
    {
        CommandPrereq::new("go", "Install from: https://golang.org/doc/install")
    }

    pub fn oc() -> (r: CommandPrereq)
        ensures
            r.name@ == "oc"@,
            r.hint@
                == "Install from: https://docs.openshift.com/container-platform/latest/cli_reference/openshift_cli/getting-started-cli.html"@,
    {
        CommandPrereq::new(
            "oc",
            "Install from: https://docs.openshift.com/container-platform/latest/cli_reference/openshift_cli/getting-started-cli.html",
        )
    }

    pub fn operator_sdk() -> (r: CommandPrereq)
        ensures
            r.name@ == "operator-sdk"@,
            r.hint@ == "Install from: https://sdk.operatorframework.io/docs/installation/"@,
    {
        CommandPrereq::new("operator-sdk", "Install from: https://sdk.operatorframework.io/docs/installation/")
    }

    /// Sorts the outcomes of the checks: the names of the tools found, and
    /// the name and hint of each tool missing, in order. A check that failed
    /// for another reason is in neither list.
    pub fn check_all(results: &Vec<Result<String, PrereqError>>) -> (r: (Vec<String>, Vec<(String, String)>))
        ensures
            r.0@ == found_of(results@),
            r.1@ == missing_of(results@),
    {
        let mut found: Vec<String> = Vec::new();
        let mut missing: Vec<(String, String)> = Vec::new();
        let mut i: usize = 0;
        while i < results.len()
            invariant
                i <= results@.len(),
                found@ == found_of(results@.take(i as int)),
                missing@ == missing_of(results@.take(i as int)),
            decreases results@.len() - i,
        {
            assert(results@.take(i + 1).drop_last() =~= results@.take(i as int));
            match &results[i] {
                Ok(name) => found.push(name.clone()),
                Err(PrereqError::NotFound { name, hint }) => missing.push((name.clone(), hint.clone())),
                Err(PrereqError::CheckFailed { .. }) => {},
            }
            i += 1;
        }
        assert(results@.take(results@.len() as int) =~= results@);
        (found, missing)
    }
}

/// The names of the tools found.
pub open spec fn found_of(results: Seq<Result<String, PrereqError>>) -> Seq<String>
    decreases results.len(),
{
    if results.len() == 0 {
        Seq::empty()
    } else {
        match results.last() {
            Ok(n) => found_of(results.drop_last()).push(n),
            Err(_) => found_of(results.drop_last()),
        }
    }
}

/// The name and hint of each tool missing.
pub open spec fn missing_of(results: Seq<Result<String, PrereqError>>) -> Seq<(String, String)>
    decreases results.len(),
{
    if results.len() == 0 {
        Seq::empty()
    } else {
        match results.last() {
            Err(PrereqError::NotFound { name, hint }) => missing_of(results.drop_last()).push((name, hint)),
            _ => missing_of(results.drop_last()),
        }
    }
}

/// The message when no container runtime is installed.
pub open spec fn no_container_runtime_message() -> Seq<char> {
    "Neither docker nor podman found. Install one of them:\n  - Docker: https://docs.docker.com/get-docker/\n  - Podman: https://podman.io/getting-started/installation"@
}

/// Succeeds when Docker or Podman is installed.
pub fn check_container_runtime(docker_available: bool, podman_available: bool) -> (r: Result<(), String>)
    ensures
        r is Ok <==> (docker_available || podman_available),
        r matches Err(m) ==> m@ == no_container_runtime_message(),
{
    if !docker_available && !podman_available {
        return Err(
            String::from_str(
                "Neither docker nor podman found. Install one of them:\n  - Docker: https://docs.docker.com/get-docker/\n  - Podman: https://podman.io/getting-started/installation",
            ),
        );
    }
    Ok(())
}

} // verus!
