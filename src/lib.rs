//! Standing up disposable Kubernetes test environments for the Kueue
//! operator: a local kind cluster, the controllers it depends on, the
//! operator under test, and its end-to-end tests.
//!
//! The library holds the decisions. Installers, the bundle install with its
//! one retry, the deployment pipeline, the waits and the test loop are state
//! machines: the caller performs each action they ask for and hands back the
//! reply. Around them stand the configuration, the manifests and the
//! commands the cluster tools are run with, and the reading of what those
//! tools print.

pub mod text;

pub mod poller;
pub mod installer;
pub mod bundle;
pub mod fanout;
pub mod deploy;
pub mod testrun;

pub mod dependencies;
pub mod calico;
pub mod olm;
pub mod openshift;
pub mod operator;
pub mod upstream;
pub mod kind;
pub mod nodes;
pub mod cleanup;
pub mod kubectl;

pub mod kueue;
pub mod settings;
pub mod images;
pub mod components;
pub mod paths;
pub mod dryrun;
pub mod errors;
pub mod container;
pub mod preflight;
pub mod prereqs;
