//! Deploying Kueue from its own source tree: the defaults, the options, and
//! the checks on the source tree.
use vstd::prelude::*;
use crate::text::views;
use crate::container::ContainerRuntime;
use crate::dependencies::{appwrapper, cert_manager, jobset, leaderworkerset, training_operator};
use crate::installer::InstallTarget;
use crate::settings::Versions;

verus! {

/// The kustomize overlay used unless another is asked for.
pub const DEFAULT_OVERLAY: &'static str = "default";

/// The Helm release name used unless another is asked for.
pub const DEFAULT_RELEASE_NAME: &'static str = "kueue";

/// The namespace Kueue is deployed to unless another is asked for.
pub const DEFAULT_NAMESPACE: &'static str = "kueue-system";

/// Deploying through kustomize.
pub struct KustomizeOptions {
    pub source_path: String,
    /// The overlay: default, dev or alpha-enabled.
    pub overlay: String,
    /// An image to use for the controller instead of the overlay's.
    pub image: Option<String>,
    pub namespace: String,
    pub kubeconfig: Option<String>,
}

/// Deploying through Helm.
pub struct HelmOptions {
    pub source_path: String,
    pub release_name: String,
    pub namespace: String,
    pub values_file: Option<String>,
    /// Additional `--set` values.
    pub set_values: Vec<String>,
    pub kubeconfig: Option<String>,
}

/// Where the source tree comes from.
#[derive(Debug)]
pub enum UpstreamSource {
    /// A path given on the command line.
    Cli(String),
    /// A path from the settings.
    Settings(String),
    /// The working directory, which looks like a source tree.
    WorkingDirectory,
}

/// The message when no source tree can be found.
pub open spec fn no_source_message() -> Seq<char> {
    "No upstream kueue source specified.\nSpecify the path with --source or set defaults.upstream_source in config.\nExample: kueue-dev deploy upstream kustomize --source /path/to/kueue/upstream/src"@
}

/// Picks the source tree: the command line's path, else the settings' path,
/// else the working directory when it looks like a source tree. A path that
/// was given must exist.
pub fn resolve_upstream_source(
    cli_path: Option<&str>,
    cli_path_exists: bool,
    settings_path: Option<&str>,
    settings_path_exists: bool,
    cwd_is_source: bool,
) -> (r: Result<UpstreamSource, String>)
    ensures
        cli_path matches Some(p) ==> (if cli_path_exists {
            r matches Ok(UpstreamSource::Cli(x)) && x@ == p@
        } else {
            r matches Err(m) && m@ == "Upstream source path does not exist: "@ + p@
        }),
        cli_path is None ==> (settings_path matches Some(p) ==> (if settings_path_exists {
            r matches Ok(UpstreamSource::Settings(x)) && x@ == p@
        } else {
            r matches Err(m) && m@ == "Upstream source path from config does not exist: "@ + p@
        })),
        cli_path is None && settings_path is None ==> (if cwd_is_source {
            r matches Ok(UpstreamSource::WorkingDirectory)
        } else {
            r matches Err(m) && m@ == no_source_message()
        }),
{
    if let Some(p) = cli_path {
        if cli_path_exists {
            return Ok(UpstreamSource::Cli(String::from_str(p)));
        }
        let mut m = String::from_str("Upstream source path does not exist: ");
        m.append(p);
        return Err(m);
    }
    if let Some(p) = settings_path {
        if settings_path_exists {
            return Ok(UpstreamSource::Settings(String::from_str(p)));
        }
        let mut m = String::from_str("Upstream source path from config does not exist: ");
        m.append(p);
        return Err(m);
    }
    if cwd_is_source {
        return Ok(UpstreamSource::WorkingDirectory);
    }
    Err(
        String::from_str(
            "No upstream kueue source specified.\nSpecify the path with --source or set defaults.upstream_source in config.\nExample: kueue-dev deploy upstream kustomize --source /path/to/kueue/upstream/src",
        ),
    )
}

/// A source tree is usable when it holds the kustomize configuration or the
/// Helm chart.
pub fn validate_upstream_source(source_path: &str, has_kustomize: bool, has_helm_chart: bool) -> (r: Result<(), String>)
    ensures
        r is Ok <==> (has_kustomize || has_helm_chart),
        r matches Err(m) ==> m@
            == "Invalid upstream kueue source: neither kustomize config nor helm chart found at "@ + source_path@,
{
    if !has_kustomize && !has_helm_chart {
        let mut m = String::from_str(
            "Invalid upstream kueue source: neither kustomize config nor helm chart found at ",
        );
        m.append(source_path);
        return Err(m);
    }
    Ok(())
}

/// The index of the last colon of `s`, if any.
pub open spec fn last_colon(s: Seq<char>) -> Option<int>
    decreases s.len(),
{
    if s.len() == 0 {
        None
    } else if s.last() == ':' {
        Some(s.len() - 1)
    } else {
        last_colon(s.drop_last())
    }
}

proof fn lemma_last_colon_bound(s: Seq<char>)
    ensures
        last_colon(s) matches Some(i) ==> 0 <= i < s.len() && s[i] == ':',
    decreases s.len(),
{
    if s.len() > 0 && s.last() != ':' {
        lemma_last_colon_bound(s.drop_last());
        if let Some(i) = last_colon(s.drop_last()) {
            assert(s.drop_last()[i] == s[i]);
        }
    }
}

/// The Helm values that make the chart use a freshly built image: its
/// repository and tag (split at the last colon; no tag when there is none),
/// and no pulling.
pub open spec fn helm_image_values_of(image: Seq<char>) -> Seq<Seq<char>> {
    (match last_colon(image) {
        Some(i) => seq![
            "controllerManager.manager.image.repository="@ + image.subrange(0, i),
            "controllerManager.manager.image.tag="@ + image.subrange(i + 1, image.len() as int),
        ],
        None => seq!["controllerManager.manager.image.repository="@ + image],
    }) + seq!["controllerManager.manager.image.pullPolicy=Never"@]
}

fn push_joined(v: &mut Vec<String>, a: &str, b: &str)
    ensures
        views(final(v)@) == views(old(v)@).push(a@ + b@),
{
    let ghost before = v@;
    let mut s = String::from_str(a);
    s.append(b);
    v.push(s);
    assert(views(v@) =~= views(before).push(a@ + b@));
}

/// The Helm values for a freshly built image.
pub fn helm_image_values(image: &str) -> (r: Vec<String>)
    ensures
        views(r@) == helm_image_values_of(image@),
{
    let n = image.unicode_len();
    let mut i: usize = n;
    assert(image@.subrange(0, n as int) =~= image@);
    while i > 0 && image.get_char(i - 1) != ':'
        invariant
            n == image@.len(),
            i <= n,
            last_colon(image@) == last_colon(image@.subrange(0, i as int)),
        decreases i,
    {
        assert(image@.subrange(0, i as int).drop_last() =~= image@.subrange(0, i - 1));
        i -= 1;
    }
    let mut v: Vec<String> = Vec::new();
    assert(views(v@) =~= Seq::<Seq<char>>::empty());
    if i > 0 {
        assert(image@.subrange(0, i as int).last() == ':');
        push_joined(&mut v, "controllerManager.manager.image.repository=", image.substring_char(0, i - 1));
        push_joined(&mut v, "controllerManager.manager.image.tag=", image.substring_char(i, n));
    } else {
        assert(image@.subrange(0, 0) =~= Seq::<char>::empty());
        push_joined(&mut v, "controllerManager.manager.image.repository=", image);
    }
    let ghost before = v@;
    v.push(String::from_str("controllerManager.manager.image.pullPolicy=Never"));
    assert(views(v@) =~= views(before).push("controllerManager.manager.image.pullPolicy=Never"@));
    assert(views(v@) =~= helm_image_values_of(image@));
    v
}

/// One step of deploying Kueue from its source tree.
#[derive(Debug, Clone, Copy, PartialEq, Eq, Structural)]
pub enum UpstreamStep {
    ResolveSource,
    ResolveKubeconfig,
    /// Build the controller image and load it into the cluster.
    BuildAndLoadImage,
    /// Install the dependencies side by side.
    InstallDependencies,
    DeployKustomize,
    DeployHelm,
    WaitForCrds,
    PrintSummary,
}

/// The steps of a deployment from source, through kustomize or Helm.
pub open spec fn upstream_plan(build_image: bool, skip_deps: bool, helm: bool) -> Seq<UpstreamStep> {
    seq![UpstreamStep::ResolveSource, UpstreamStep::ResolveKubeconfig]
        + (if build_image { seq![UpstreamStep::BuildAndLoadImage] } else { Seq::empty() })
        + (if skip_deps { Seq::empty() } else { seq![UpstreamStep::InstallDependencies] })
        + seq![if helm { UpstreamStep::DeployHelm } else { UpstreamStep::DeployKustomize }, UpstreamStep::WaitForCrds, UpstreamStep::PrintSummary]
}

fn plan(build_image: bool, skip_deps: bool, helm: bool) -> (r: Vec<UpstreamStep>)
    ensures
        r@ == upstream_plan(build_image, skip_deps, helm),
{
    let mut v: Vec<UpstreamStep> = Vec::new();
    v.push(UpstreamStep::ResolveSource);
    v.push(UpstreamStep::ResolveKubeconfig);
    if build_image {
        v.push(UpstreamStep::BuildAndLoadImage);
    }
    if !skip_deps {
        v.push(UpstreamStep::InstallDependencies);
    }
    v.push(if helm { UpstreamStep::DeployHelm } else { UpstreamStep::DeployKustomize });
    v.push(UpstreamStep::WaitForCrds);
    v.push(UpstreamStep::PrintSummary);
    assert(v@ =~= upstream_plan(build_image, skip_deps, helm));
    v
}

/// A deployment of Kueue from source through kustomize.
pub struct DeployUpstreamKustomizeOptions {
    pub source: Option<String>,
    pub overlay: String,
    pub image: Option<String>,
    pub build_image: bool,
    pub image_tag: Option<String>,
    pub namespace: String,
    pub kubeconfig: Option<String>,
    pub cluster_name: String,
    pub skip_deps: bool,
    pub cert_manager_version: Option<String>,
    pub jobset_version: Option<String>,
    pub leaderworkerset_version: Option<String>,
    pub appwrapper_version: Option<String>,
    pub training_operator_version: Option<String>,
}

/// A deployment of Kueue from source through Helm.
pub struct DeployUpstreamHelmOptions {
    pub source: Option<String>,
    pub release_name: String,
    pub namespace: String,
    pub values_file: Option<String>,
    pub set_values: Vec<String>,
    pub build_image: bool,
    pub image_tag: Option<String>,
    pub kubeconfig: Option<String>,
    pub cluster_name: String,
    pub skip_deps: bool,
    pub cert_manager_version: Option<String>,
    pub jobset_version: Option<String>,
    pub leaderworkerset_version: Option<String>,
    pub appwrapper_version: Option<String>,
    pub training_operator_version: Option<String>,
}

/// The steps of deploying Kueue from source through kustomize.
pub fn deploy_upstream_kustomize(o: &DeployUpstreamKustomizeOptions) -> (r: Vec<UpstreamStep>)
    ensures
        r@ == upstream_plan(o.build_image, o.skip_deps, false),
{
    plan(o.build_image, o.skip_deps, false)
}

/// The steps of deploying Kueue from source through Helm.
pub fn deploy_upstream_helm(o: &DeployUpstreamHelmOptions) -> (r: Vec<UpstreamStep>)
    ensures
        r@ == upstream_plan(o.build_image, o.skip_deps, true),
{
    plan(o.build_image, o.skip_deps, true)
}

fn version_or(o: &Option<String>, configured: &String) -> (r: String)
    ensures
        r@ == (match o {
            Some(v) => v@,
            None => configured@,
        }),
{
    match o {
        Some(v) => v.clone(),
        None => configured.clone(),
    }
}

/// The dependencies of a deployment from source: cert-manager, JobSet and
/// LeaderWorkerSet at the versions given, else the configured ones; then
/// AppWrapper and the training operator, each only when its version is given.
pub fn install_upstream_dependencies(
    versions: &Versions,
    cert_manager_version: &Option<String>,
    jobset_version: &Option<String>,
    leaderworkerset_version: &Option<String>,
    appwrapper_version: &Option<String>,
    training_operator_version: &Option<String>,
) -> (r: Vec<InstallTarget>)
    ensures
        r@.len() == 3 + (if appwrapper_version is Some { 1int } else { 0 }) + (if training_operator_version is Some { 1int } else { 0 }),
        r@[0].name@ == "cert-manager"@ && r@[0].version@ == (match cert_manager_version {
            Some(v) => v@,
            None => versions.cert_manager@,
        }),
        r@[1].name@ == "jobset"@ && r@[1].version@ == (match jobset_version {
            Some(v) => v@,
            None => versions.jobset@,
        }),
        r@[2].name@ == "leaderworkerset"@ && r@[2].version@ == (match leaderworkerset_version {
            Some(v) => v@,
            None => versions.leaderworkerset@,
        }),
        appwrapper_version matches Some(v) ==> r@[3].name@ == "appwrapper"@ && r@[3].version@ == v@,
        training_operator_version matches Some(v) ==> r@[r@.len() - 1].name@ == "training-operator"@ && r@[r@.len() - 1].version@ == v@,
{
    let c = version_or(cert_manager_version, &versions.cert_manager);
    let j = version_or(jobset_version, &versions.jobset);
    let l = version_or(leaderworkerset_version, &versions.leaderworkerset);
    let mut targets: Vec<InstallTarget> = Vec::new();
    targets.push(cert_manager(c.as_str()));
    targets.push(jobset(j.as_str()));
    targets.push(leaderworkerset(l.as_str()));
    match appwrapper_version {
        Some(v) => targets.push(appwrapper(v.as_str())),
        None => {},
    }
    match training_operator_version {
        Some(v) => targets.push(training_operator(v.as_str())),
        None => {},
    }
    targets
}

/// The Kueue resource definitions that must be established after a deployment.
pub open spec fn kueue_crd_names() -> Seq<Seq<char>> {
    seq![
        "clusterqueues.kueue.x-k8s.io"@,
        "localqueues.kueue.x-k8s.io"@,
        "resourceflavors.kueue.x-k8s.io"@,
        "admissionchecks.kueue.x-k8s.io"@,
    ]
}

/// The resources to wait on, each `crd/<name>`, after a deployment.
pub fn wait_for_kueue_crds() -> (r: Vec<String>)
    ensures
        views(r@) == kueue_crd_names().map_values(|n: Seq<char>| "crd/"@ + n),
{
    let mut v: Vec<String> = Vec::new();
    assert(views(v@) =~= Seq::<Seq<char>>::empty());
    push_joined(&mut v, "crd/", "clusterqueues.kueue.x-k8s.io");
    push_joined(&mut v, "crd/", "localqueues.kueue.x-k8s.io");
    push_joined(&mut v, "crd/", "resourceflavors.kueue.x-k8s.io");
    push_joined(&mut v, "crd/", "admissionchecks.kueue.x-k8s.io");
    assert(views(v@) =~= kueue_crd_names().map_values(|n: Seq<char>| "crd/"@ + n));
    v
}

/// The registry an image is built for unless another is asked for.
pub const DEFAULT_IMAGE_REGISTRY: &'static str = "localhost";

/// The tag an image is built with unless another is asked for.
pub const DEFAULT_IMAGE_TAG: &'static str = "dev";

/// `s` without a trailing "/kueue".
pub open spec fn strip_kueue(s: Seq<char>) -> Seq<char> {
    if s.len() >= 6 && s.subrange(s.len() - 6, s.len() as int) == "/kueue"@ {
        s.subrange(0, s.len() - 6)
    } else {
        s
    }
}

/// The registry and tag that a requested image names: the part before the
/// last colon, without a trailing "/kueue", and the part after it; the
/// default tag when there is no colon, and the defaults when nothing is
/// requested.
pub open spec fn registry_and_tag(requested: Option<Seq<char>>) -> (Seq<char>, Seq<char>) {
    match requested {
        None => ("localhost"@, "dev"@),
        Some(s) => match last_colon(s) {
            Some(i) => (strip_kueue(s.subrange(0, i)), s.subrange(i + 1, s.len() as int)),
            None => (strip_kueue(s), "dev"@),
        },
    }
}

/// An image to build from the source tree.
pub struct ImageBuild {
    pub registry: String,
    pub tag: String,
    /// The full reference: the registry, "/kueue:", and the tag.
    pub image: String,
}

fn strip_kueue_suffix(s: &str) -> (r: String)
    ensures
        r@ == strip_kueue(s@),
{
    proof {
        reveal_strlit("/kueue");
    }
    let n = s.unicode_len();
    if n >= 6 && crate::text::str_eq(s.substring_char(n - 6, n), "/kueue") {
        String::from_str(s.substring_char(0, n - 6))
    } else {
        String::from_str(s)
    }
}

fn last_colon_index(s: &str) -> (r: Option<usize>)
    ensures
        (match r {
            Some(i) => Some(i as int),
            None => None,
        }) == last_colon(s@),
{
    let n = s.unicode_len();
    let mut i: usize = n;
    assert(s@.subrange(0, n as int) =~= s@);
    while i > 0 && s.get_char(i - 1) != ':'
        invariant
            n == s@.len(),
            i <= n,
            last_colon(s@) == last_colon(s@.subrange(0, i as int)),
        decreases i,
    {
        assert(s@.subrange(0, i as int).drop_last() =~= s@.subrange(0, i - 1));
        i -= 1;
    }
    if i > 0 {
        assert(s@.subrange(0, i as int).last() == ':');
        Some(i - 1)
    } else {
        assert(s@.subrange(0, 0) =~= Seq::<char>::empty());
        None
    }
}

/// The image to build for a requested reference.
pub fn build_image(requested: Option<&str>) -> (r: ImageBuild)
    ensures
        (r.registry@, r.tag@) == registry_and_tag(match requested {
            Some(s) => Some(s@),
            None => None,
        }),
        r.image@ == r.registry@ + "/kueue:"@ + r.tag@,
{
    let (registry, tag) = match requested {
        None => (String::from_str(DEFAULT_IMAGE_REGISTRY), String::from_str(DEFAULT_IMAGE_TAG)),
        Some(s) => {
            proof {
                lemma_last_colon_bound(s@);
            }
            match last_colon_index(s) {
                Some(i) => {
                    let n = s.unicode_len();
                    (strip_kueue_suffix(s.substring_char(0, i)), String::from_str(s.substring_char(i + 1, n)))
                },
                None => (strip_kueue_suffix(s), String::from_str(DEFAULT_IMAGE_TAG)),
            }
        },
    };
    let mut image = registry.clone();
    image.append("/kueue:");
    image.append(tag.as_str());
    ImageBuild { registry, tag, image }
}

impl ImageBuild {
    /// The arguments of the make target that builds the image.
    pub fn make_args(&self) -> (r: Vec<String>)
        ensures
            views(r@) == seq!["kind-image-build"@, "IMAGE_REGISTRY="@ + self.registry@, "GIT_TAG="@ + self.tag@],
    {
        let mut v: Vec<String> = Vec::new();
        assert(views(v@) =~= Seq::<Seq<char>>::empty());
        v.push(String::from_str("kind-image-build"));
        assert(views(v@) =~= seq!["kind-image-build"@]);
        push_joined(&mut v, "IMAGE_REGISTRY=", self.registry.as_str());
        push_joined(&mut v, "GIT_TAG=", self.tag.as_str());
        v
    }
}

/// What follows an attempt to load an image into kind.
#[derive(Debug, Clone, Copy, PartialEq, Eq, Structural)]
pub enum LoadNext {
    Done,
    /// Save the image from Podman and load the archive instead.
    LoadArchive,
    Fail,
}

/// Decides what follows loading an image: a failure through Podman is
/// retried from a saved archive; any other failure is final.
pub fn load_image_to_kind(runtime: ContainerRuntime, loaded: bool) -> (r: LoadNext)
    ensures
        loaded ==> r == LoadNext::Done,
        !loaded && runtime == ContainerRuntime::Podman ==> r == LoadNext::LoadArchive,
        !loaded && runtime == ContainerRuntime::Docker ==> r == LoadNext::Fail,
{
    if loaded {
        LoadNext::Done
    } else if runtime == ContainerRuntime::Podman {
        LoadNext::LoadArchive
    } else {
        LoadNext::Fail
    }
}

/// The arguments of `helm install` for these options and chart.
pub open spec fn helm_install_args(o: HelmOptions, chart: Seq<char>) -> Seq<Seq<char>> {
    seq!["install"@, o.release_name@, chart, "--namespace"@, o.namespace@, "--create-namespace"@] + (match o.kubeconfig {
        Some(k) => seq!["--kubeconfig"@, k@],
        None => Seq::empty(),
    }) + (match o.values_file {
        Some(v) => seq!["-f"@, v@],
        None => Seq::empty(),
    }) + set_args(views(o.set_values@))
}

/// Each value as a `--set` argument.
pub open spec fn set_args(values: Seq<Seq<char>>) -> Seq<Seq<char>>
    decreases values.len(),
{
    if values.len() == 0 {
        Seq::empty()
    } else {
        set_args(values.drop_last()) + seq!["--set"@, values.last()]
    }
}

fn push_owned(v: &mut Vec<String>, s: &str)
    ensures
        views(final(v)@) == views(old(v)@).push(s@),
{
    let ghost before = v@;
    v.push(String::from_str(s));
    assert(views(v@) =~= views(before).push(s@));
}

impl HelmOptions {
    /// The arguments that install the chart at `chart`.
    pub fn install_args(&self, chart: &str) -> (r: Vec<String>)
        ensures
            views(r@) == helm_install_args(*self, chart@),
    {
        let mut v: Vec<String> = Vec::new();
        assert(views(v@) =~= Seq::<Seq<char>>::empty());
        push_owned(&mut v, "install");
        push_owned(&mut v, self.release_name.as_str());
        push_owned(&mut v, chart);
        push_owned(&mut v, "--namespace");
        push_owned(&mut v, self.namespace.as_str());
        push_owned(&mut v, "--create-namespace");
        match &self.kubeconfig {
            Some(k) => {
                push_owned(&mut v, "--kubeconfig");
                push_owned(&mut v, k.as_str());
            },
            None => {},
        }
        match &self.values_file {
            Some(f) => {
                push_owned(&mut v, "-f");
                push_owned(&mut v, f.as_str());
            },
            None => {},
        }
        let ghost head = views(v@);
        let mut i: usize = 0;
        while i < self.set_values.len()
            invariant
                i <= self.set_values@.len(),
                views(v@) == head + set_args(views(self.set_values@).take(i as int)),
            decreases self.set_values@.len() - i,
        {
            assert(views(self.set_values@).take(i + 1).drop_last() =~= views(self.set_values@).take(i as int));
            assert(views(self.set_values@).take(i + 1).last() == self.set_values@[i as int]@);
            push_owned(&mut v, "--set");
            push_owned(&mut v, self.set_values[i].as_str());
            assert(views(v@) =~= head + set_args(views(self.set_values@).take(i + 1)));
            i += 1;
        }
        assert(views(self.set_values@).take(self.set_values@.len() as int) =~= views(self.set_values@));
        assert(views(v@) =~= helm_install_args(*self, chart@));
        v
    }
}

impl KustomizeOptions {
    /// The kustomize arguments that point the overlay at the image asked
    /// for, if one was.
    pub fn image_edit_args(&self) -> (r: Option<Vec<String>>)
        ensures
            self.image is None ==> r is None,
            self.image matches Some(img) ==> (r matches Some(v) && views(v@) == seq![
                "edit"@,
                "set"@,
                "image"@,
                "controller="@ + img@,
            ]),
    {
        match &self.image {
            None => None,
            Some(img) => {
                let mut v: Vec<String> = Vec::new();
                assert(views(v@) =~= Seq::<Seq<char>>::empty());
                push_owned(&mut v, "edit");
                push_owned(&mut v, "set");
                push_owned(&mut v, "image");
                push_joined(&mut v, "controller=", img.as_str());
                Some(v)
            },
        }
    }
}

} // verus!
