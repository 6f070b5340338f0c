//! The container runtime (Docker or Podman) and the decisions around local images.
use vstd::prelude::*;

verus! {

/// A container runtime.
#[derive(Debug, Clone, Copy, PartialEq, Eq, Structural)]
pub enum ContainerRuntime {
    Docker,
    Podman,
}

/// The command of a runtime.
pub open spec fn runtime_command(r: ContainerRuntime) -> Seq<char> {
    match r {
        ContainerRuntime::Docker => "docker"@,
        ContainerRuntime::Podman => "podman"@,
    }
}

/// The message when neither runtime is installed.
pub open spec fn no_runtime_message() -> Seq<char> {
    "Neither docker nor podman found. Please install one of them:\n  - Docker: https://docs.docker.com/get-docker/\n  - Podman: https://podman.io/getting-started/installation"@
}

/// The message for an image that is not present and may not be pulled.
pub open spec fn image_missing_message(image: Seq<char>) -> Seq<char> {
    "Image not found in local registry: "@ + image + "\nPlease build or pull the image first"@
}

/// What to do to have an image locally.
#[derive(Debug, Clone, Copy, PartialEq, Eq, Structural)]
pub enum ImagePlan {
    /// It is there already.
    UseLocal,
    /// Pull it first.
    Pull,
}

impl ContainerRuntime {
    /// Picks the runtime: Docker when it is installed, else Podman.
    pub fn detect(docker_available: bool, podman_available: bool) -> (r: Result<ContainerRuntime, String>)
        ensures
            docker_available ==> r == Ok::<ContainerRuntime, String>(ContainerRuntime::Docker),
            !docker_available && podman_available ==> r == Ok::<ContainerRuntime, String>(ContainerRuntime::Podman),
            !docker_available && !podman_available ==> (r matches Err(m) && m@ == no_runtime_message()),
    {
        if docker_available {
            Ok(ContainerRuntime::Docker)
        } else if podman_available {
            Ok(ContainerRuntime::Podman)
        } else {
            Err(
                String::from_str(
                    "Neither docker nor podman found. Please install one of them:\n  - Docker: https://docs.docker.com/get-docker/\n  - Podman: https://podman.io/getting-started/installation",
                ),
            )
        }
    }

    /// The runtime's command.
    pub fn command(&self) -> (r: &'static str)
        ensures
            r@ == runtime_command(*self),
    {
        match self {
            ContainerRuntime::Docker => "docker",
            ContainerRuntime::Podman => "podman",
        }
    }

    /// The runtime's name, owned.
    pub fn to_string(&self) -> (r: String)
        ensures
            r@ == runtime_command(*self),
    {
        String::from_str(self.command())
    }

    /// Loading an image into kind through Podman needs kind told so.
    pub fn needs_podman_provider(&self) -> (r: bool)
        ensures
            r == (*self == ContainerRuntime::Podman),
    {
        *self == ContainerRuntime::Podman
    }

    /// Decides how to have `image` locally, given whether it is there.
    pub fn ensure_image(&self, image: &str, exists_locally: bool, pull_if_missing: bool) -> (r: Result<ImagePlan, String>)
        ensures
            exists_locally ==> r == Ok::<ImagePlan, String>(ImagePlan::UseLocal),
            !exists_locally && pull_if_missing ==> r == Ok::<ImagePlan, String>(ImagePlan::Pull),
            !exists_locally && !pull_if_missing ==> (r matches Err(m) && m@ == image_missing_message(image@)),
    {
        if exists_locally {
            Ok(ImagePlan::UseLocal)
        } else if pull_if_missing {
            Ok(ImagePlan::Pull)
        } else {
            let mut m = String::from_str("Image not found in local registry: ");
            m.append(image);
            m.append("\nPlease build or pull the image first");
            Err(m)
        }
    }
}

} // verus!
