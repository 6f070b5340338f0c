//! Installing one dependency at most once: look for the resource whose
//! presence means it is installed, and only if it is absent fetch its
//! manifest, apply it and wait for what it deploys to become ready.
//!
//! The installer is a state machine: the caller performs each action it asks
//! for and hands back the reply.
use vstd::prelude::*;
use vstd::utf8::encode_utf8;
use crate::text::views;

verus! {

/// A condition that a resource must reach within a timeout.
pub struct Readiness {
    pub resource: String,
    pub condition: String,
    pub namespace: Option<String>,
    pub timeout: String,
    /// A failed wait on this condition is reported but does not fail the install.
    pub best_effort: bool,
}

/// One step of a fixed sequence of cluster changes, run in order.
pub enum ManifestStep {
    /// Download a manifest from this address and create its objects.
    CreateFrom(String),
    /// Apply this document.
    Apply(String),
    /// Wait on this condition.
    Wait(Readiness),
    /// Run the cluster client with these arguments; when `best_effort`, its
    /// failure does not stop the sequence.
    Command { args: Vec<String>, best_effort: bool },
}

impl ManifestStep {
    /// A failure of this step does not stop the sequence.
    pub fn tolerates_failure(&self) -> (r: bool)
        ensures
            r == ((*self matches ManifestStep::Wait(w) && w.best_effort) || (*self matches ManifestStep::Command {
                best_effort,
                ..
            } && best_effort)),
    {
        match self {
            ManifestStep::Wait(w) => w.best_effort,
            ManifestStep::Command { best_effort, .. } => *best_effort,
            _ => false,
        }
    }
}

/// The resource whose existence means that a dependency is installed.
pub struct Marker {
    pub kind: String,
    pub name: String,
    pub namespace: Option<String>,
}

/// How a manifest is applied to the cluster.
#[derive(Debug, Clone, Copy, PartialEq, Eq, Structural)]
pub enum ApplyMode {
    ClientSide,
    ServerSide,
}

/// Where a dependency's manifest comes from.
pub enum ManifestSource {
    /// A document to download.
    Download(String),
    /// A kustomize directory to build.
    Kustomize(String),
}

/// One dependency to install.
pub struct InstallTarget {
    pub name: String,
    pub version: String,
    pub marker: Marker,
    pub source: ManifestSource,
    /// Applied server-side whatever its size.
    pub server_side: bool,
    pub readiness: Vec<Readiness>,
}

/// The stage of an install that failed.
#[derive(Debug, Clone, Copy, PartialEq, Eq, Structural)]
pub enum InstallStage {
    Fetch,
    Apply,
    Readiness,
}

/// A failed install, attributed to its dependency and stage.
pub struct InstallError {
    pub target: String,
    pub stage: InstallStage,
    pub message: String,
}

/// What the stage of an install was doing.
pub open spec fn stage_text(s: InstallStage) -> Seq<char> {
    match s {
        InstallStage::Fetch => "fetch the manifest of"@,
        InstallStage::Apply => "apply the manifest of"@,
        InstallStage::Readiness => "wait for the readiness of"@,
    }
}

impl InstallError {
    /// The error as text: what failed, for which dependency, and why.
    pub fn describe(&self) -> (r: String)
        ensures
            r@ == "Failed to "@ + stage_text(self.stage) + " "@ + self.target@ + ": "@ + self.message@,
    {
        let mut s = String::from_str("Failed to ");
        match self.stage {
            InstallStage::Fetch => s.append("fetch the manifest of"),
            InstallStage::Apply => s.append("apply the manifest of"),
            InstallStage::Readiness => s.append("wait for the readiness of"),
        }
        s.append(" ");
        s.append(self.target.as_str());
        s.append(": ");
        s.append(self.message.as_str());
        s
    }
}

/// Where an install stands.
#[derive(Debug, Clone, Copy, PartialEq, Eq, Structural)]
pub enum InstallPhase {
    CheckingMarker,
    Fetching,
    Applying,
    /// Waiting on the readiness condition of this index.
    Waiting(usize),
    Finished,
}

/// What the installer asks the caller to do next.
pub enum InstallAction {
    /// Look up the marker resource; reply `Ok` if it exists.
    QueryMarker,
    /// Obtain the manifest from its source; reply `Ok` with its text.
    FetchManifest,
    /// Apply this document in this mode.
    Apply { document: String, mode: ApplyMode },
    /// Wait on the readiness condition of this index.
    Wait(usize),
    /// The install is over, with this result.
    Finish(Result<(), InstallError>),
    /// Nothing is left to do.
    Idle,
}

/// The size, in bytes, above which a manifest no longer fits the annotation
/// that client-side apply records, and must be applied server-side.
pub const CLIENT_SIDE_APPLY_LIMIT: usize = 262144;

/// The mode in which a manifest is applied.
pub open spec fn apply_mode_of(force_server_side: bool, document: Seq<char>) -> ApplyMode {
    if force_server_side || encode_utf8(document).len() as usize > CLIENT_SIDE_APPLY_LIMIT {
        ApplyMode::ServerSide
    } else {
        ApplyMode::ClientSide
    }
}

/// Picks the apply mode: server-side when asked for, or when the document is
/// too large for client-side apply.
pub fn apply_mode(force_server_side: bool, document: &str) -> (r: ApplyMode)
    ensures
        r == apply_mode_of(force_server_side, document@),
{
    if force_server_side || document.len() > CLIENT_SIDE_APPLY_LIMIT {
        ApplyMode::ServerSide
    } else {
        ApplyMode::ClientSide
    }
}

/// The action after a readiness wait at `i` that passed, or failed without
/// failing the install.
pub open spec fn after_wait(t: InstallTarget, i: int) -> (InstallPhase, InstallAction) {
    if i + 1 < t.readiness@.len() {
        (InstallPhase::Waiting((i + 1) as usize), InstallAction::Wait((i + 1) as usize))
    } else {
        (InstallPhase::Finished, InstallAction::Finish(Ok(())))
    }
}

/// One step of the installer of `t`: from `phase`, on the reply to the last
/// action, to the next phase and action.
pub open spec fn install_step(t: InstallTarget, phase: InstallPhase, reply: Result<String, String>) -> (InstallPhase, InstallAction) {
    match phase {
        InstallPhase::CheckingMarker => match reply {
            Ok(_) => (InstallPhase::Finished, InstallAction::Finish(Ok(()))),
            Err(_) => (InstallPhase::Fetching, InstallAction::FetchManifest),
        },
        InstallPhase::Fetching => match reply {
            Ok(doc) => (
                InstallPhase::Applying,
                InstallAction::Apply { document: doc, mode: apply_mode_of(t.server_side, doc@) },
            ),
            Err(m) => (
                InstallPhase::Finished,
                InstallAction::Finish(Err(InstallError { target: t.name, stage: InstallStage::Fetch, message: m })),
            ),
        },
        InstallPhase::Applying => match reply {
            Ok(_) => if t.readiness@.len() == 0 {
                (InstallPhase::Finished, InstallAction::Finish(Ok(())))
            } else {
                (InstallPhase::Waiting(0), InstallAction::Wait(0))
            },
            Err(m) => (
                InstallPhase::Finished,
                InstallAction::Finish(Err(InstallError { target: t.name, stage: InstallStage::Apply, message: m })),
            ),
        },
        InstallPhase::Waiting(i) => if i >= t.readiness@.len() {
            (InstallPhase::Finished, InstallAction::Finish(Ok(())))
        } else {
            match reply {
                Ok(_) => after_wait(t, i as int),
                Err(m) => if t.readiness@[i as int].best_effort {
                    after_wait(t, i as int)
                } else {
                    (
                        InstallPhase::Finished,
                        InstallAction::Finish(Err(InstallError { target: t.name, stage: InstallStage::Readiness, message: m })),
                    )
                },
            }
        },
        InstallPhase::Finished => (InstallPhase::Finished, InstallAction::Idle),
    }
}

/// The actions that the installer of `t` asks for, from `phase`, given the
/// replies in order.
pub open spec fn install_trace(t: InstallTarget, phase: InstallPhase, replies: Seq<Result<String, String>>) -> Seq<InstallAction>
    decreases replies.len(),
{
    if replies.len() == 0 {
        Seq::empty()
    } else {
        let (next, action) = install_step(t, phase, replies[0]);
        seq![action] + install_trace(t, next, replies.drop_first())
    }
}

/// An action that changes the cluster or waits on it.
pub open spec fn touches_cluster(a: InstallAction) -> bool {
    a is Apply || a is Wait
}

/// The arguments that look up a marker resource.
pub open spec fn marker_query_args(m: Marker) -> Seq<Seq<char>> {
    seq!["get"@, m.kind@, m.name@] + (match m.namespace {
        Some(ns) => seq!["-n"@, ns@],
        None => Seq::empty(),
    })
}

impl InstallTarget {
    /// The arguments that look up this target's marker resource.
    pub fn marker_query(&self) -> (r: Vec<String>)
        ensures
            views(r@) == marker_query_args(self.marker),
    {
        let mut v: Vec<String> = Vec::new();
        v.push(String::from_str("get"));
        v.push(self.marker.kind.clone());
        v.push(self.marker.name.clone());
        match &self.marker.namespace {
            Some(ns) => {
                v.push(String::from_str("-n"));
                v.push(ns.clone());
            },
            None => {},
        }
        assert(views(v@) =~= marker_query_args(self.marker));
        v
    }

    /// The first phase and action of an install.
    pub fn start(&self) -> (r: (InstallPhase, InstallAction))
        ensures
            r.0 == InstallPhase::CheckingMarker,
            r.1 is QueryMarker,
    {
        (InstallPhase::CheckingMarker, InstallAction::QueryMarker)
    }

    fn finish_ok() -> (r: (InstallPhase, InstallAction))
        ensures
            r == (InstallPhase::Finished, InstallAction::Finish(Ok(()))),
    {
        (InstallPhase::Finished, InstallAction::Finish(Ok(())))
    }

    fn fail(&self, stage: InstallStage, message: String) -> (r: (InstallPhase, InstallAction))
        ensures
            r == (InstallPhase::Finished, InstallAction::Finish(Err(InstallError { target: self.name, stage, message }))),
    {
        (
            InstallPhase::Finished,
            InstallAction::Finish(Err(InstallError { target: self.name.clone(), stage, message })),
        )
    }

    fn next_wait(&self, i: usize) -> (r: (InstallPhase, InstallAction))
        requires
            i < self.readiness@.len(),
        ensures
            r == after_wait(*self, i as int),
    {
        if i < self.readiness.len() - 1 {
            (InstallPhase::Waiting(i + 1), InstallAction::Wait(i + 1))
        } else {
            Self::finish_ok()
        }
    }

    /// Advances the install from `phase` on the reply to the last action.
    pub fn step(&self, phase: InstallPhase, reply: Result<String, String>) -> (r: (InstallPhase, InstallAction))
        ensures
            r == install_step(*self, phase, reply),
    {
        match phase {
            InstallPhase::CheckingMarker => match reply {
                Ok(_) => Self::finish_ok(),
                Err(_) => (InstallPhase::Fetching, InstallAction::FetchManifest),
            },
            InstallPhase::Fetching => match reply {
                Ok(doc) => {
                    let mode = apply_mode(self.server_side, doc.as_str());
                    (InstallPhase::Applying, InstallAction::Apply { document: doc, mode })
                },
                Err(m) => self.fail(InstallStage::Fetch, m),
            },
            InstallPhase::Applying => match reply {
                Ok(_) => if self.readiness.len() == 0 {
                    Self::finish_ok()
                } else {
                    (InstallPhase::Waiting(0), InstallAction::Wait(0))
                },
                Err(m) => self.fail(InstallStage::Apply, m),
            },
            InstallPhase::Waiting(i) => if i >= self.readiness.len() {
                Self::finish_ok()
            } else {
                match reply {
                    Ok(_) => self.next_wait(i),
                    Err(m) => if self.readiness[i].best_effort {
                        self.next_wait(i)
                    } else {
                        self.fail(InstallStage::Readiness, m)
                    },
                }
            },
            InstallPhase::Finished => (InstallPhase::Finished, InstallAction::Idle),
        }
    }
}

/// Once finished, an install asks for nothing more.
pub proof fn lemma_finished_is_idle(t: InstallTarget, replies: Seq<Result<String, String>>)
    ensures
        forall|i: int| 0 <= i < install_trace(t, InstallPhase::Finished, replies).len()
            ==> #[trigger] install_trace(t, InstallPhase::Finished, replies)[i] is Idle,
        install_trace(t, InstallPhase::Finished, replies).len() == replies.len(),
    decreases replies.len(),
{
    if replies.len() > 0 {
        lemma_finished_is_idle(t, replies.drop_first());
        let tr = install_trace(t, InstallPhase::Finished, replies);
        let rest = install_trace(t, InstallPhase::Finished, replies.drop_first());
        assert(tr == seq![InstallAction::Idle] + rest);
        assert forall|i: int| 0 <= i < tr.len() implies #[trigger] tr[i] is Idle by {
            if i > 0 {
                assert(tr[i] == rest[i - 1]);
            }
        }
    }
}

/// An install whose marker lookup finds the resource returns success at once
/// and applies nothing and waits on nothing, whatever comes after; so a second
/// install of a target that the first one installed does no work.
pub proof fn lemma_idempotent(t: InstallTarget, replies: Seq<Result<String, String>>)
    requires
        replies.len() > 0,
        replies[0] is Ok,
    ensures
        install_trace(t, InstallPhase::CheckingMarker, replies)[0] == InstallAction::Finish(Ok(())),
        forall|i: int| 0 <= i < install_trace(t, InstallPhase::CheckingMarker, replies).len()
            ==> !touches_cluster(#[trigger] install_trace(t, InstallPhase::CheckingMarker, replies)[i]),
{
    let tr = install_trace(t, InstallPhase::CheckingMarker, replies);
    let rest = install_trace(t, InstallPhase::Finished, replies.drop_first());
    lemma_finished_is_idle(t, replies.drop_first());
    assert(tr == seq![InstallAction::Finish(Ok(()))] + rest);
    assert forall|i: int| 0 <= i < tr.len() implies !touches_cluster(#[trigger] tr[i]) by {
        if i > 0 {
            assert(tr[i] == rest[i - 1]);
        }
    }
}

/// A failed wait on a condition that is not best-effort ends the install
/// with that failure: no later condition is waited on, nothing more is done.
pub proof fn lemma_wait_failure_is_final(t: InstallTarget, i: usize, m: String, rest: Seq<Result<String, String>>)
    requires
        i < t.readiness@.len(),
        !t.readiness@[i as int].best_effort,
    ensures
        install_trace(t, InstallPhase::Waiting(i), seq![Err(m)] + rest)[0] == InstallAction::Finish(
            Err(InstallError { target: t.name, stage: InstallStage::Readiness, message: m }),
        ),
        forall|k: int| 1 <= k < install_trace(t, InstallPhase::Waiting(i), seq![Err(m)] + rest).len()
            ==> #[trigger] install_trace(t, InstallPhase::Waiting(i), seq![Err(m)] + rest)[k] is Idle,
{
    let replies = seq![Err(m)] + rest;
    assert(replies.drop_first() =~= rest);
    let tr = install_trace(t, InstallPhase::Waiting(i), replies);
    let after = install_trace(t, InstallPhase::Finished, rest);
    lemma_finished_is_idle(t, rest);
    assert(tr == seq![InstallAction::Finish(Err(InstallError { target: t.name, stage: InstallStage::Readiness, message: m }))] + after);
    assert forall|k: int| 1 <= k < tr.len() implies #[trigger] tr[k] is Idle by {
        assert(tr[k] == after[k - 1]);
    }
}

} // verus!
