//! The Kueue custom resource: its settings and the manifest that applies it.
use vstd::prelude::*;
use crate::settings::Settings;
use crate::text::{pieces_of, split_at_char, trim, trim_blanks, views};

verus! {

/// Who reconciles the Kueue operand: the operator, or nobody.
#[derive(Debug, Clone, Copy, PartialEq, Eq, Structural)]
pub enum ManagementState {
    Managed,
    Unmanaged,
}

/// A workload framework that Kueue can be told to integrate with.
#[derive(Debug, Clone, Copy, PartialEq, Eq, Structural)]
pub enum Framework {
    BatchJob,
    Pod,
    Deployment,
    StatefulSet,
    JobSet,
    LeaderWorkerSet,
}

/// The name under which a framework appears in the custom resource.
pub open spec fn framework_name(f: Framework) -> Seq<char> {
    match f {
        Framework::BatchJob => "BatchJob"@,
        Framework::Pod => "Pod"@,
        Framework::Deployment => "Deployment"@,
        Framework::StatefulSet => "StatefulSet"@,
        Framework::JobSet => "JobSet"@,
        Framework::LeaderWorkerSet => "LeaderWorkerSet"@,
    }
}

impl Framework {
    pub fn as_str(&self) -> (r: &'static str)
        ensures
            r@ == framework_name(*self),
    {
        match self {
            Framework::BatchJob => "BatchJob",
            Framework::Pod => "Pod",
            Framework::Deployment => "Deployment",
            Framework::StatefulSet => "StatefulSet",
            Framework::JobSet => "JobSet",
            Framework::LeaderWorkerSet => "LeaderWorkerSet",
        }
    }
}

impl ManagementState {
    /// The state's name in the custom resource.
    pub fn as_str(&self) -> (r: &'static str)
        ensures
            r@ == state_name(*self),
    {
        match self {
            ManagementState::Managed => "Managed",
            ManagementState::Unmanaged => "Unmanaged",
        }
    }
}

impl Default for ManagementState {
    fn default() -> (r: Self)
        ensures
            r == ManagementState::Managed,
    {
        ManagementState::Managed
    }
}

/// The name of a management state.
pub open spec fn state_name(m: ManagementState) -> Seq<char> {
    match m {
        ManagementState::Managed => "Managed"@,
        ManagementState::Unmanaged => "Unmanaged"@,
    }
}

/// The framework that a name stands for, if any.
pub open spec fn framework_of_name(s: Seq<char>) -> Option<Framework> {
    if s == "BatchJob"@ {
        Some(Framework::BatchJob)
    } else if s == "Pod"@ {
        Some(Framework::Pod)
    } else if s == "Deployment"@ {
        Some(Framework::Deployment)
    } else if s == "StatefulSet"@ {
        Some(Framework::StatefulSet)
    } else if s == "JobSet"@ {
        Some(Framework::JobSet)
    } else if s == "LeaderWorkerSet"@ {
        Some(Framework::LeaderWorkerSet)
    } else {
        None
    }
}

/// The frameworks that a list of names stands for; unknown names are skipped.
pub open spec fn parse_frameworks(names: Seq<Seq<char>>) -> Seq<Framework>
    decreases names.len(),
{
    if names.len() == 0 {
        Seq::empty()
    } else {
        let before = parse_frameworks(names.drop_last());
        match framework_of_name(names.last()) {
            Some(f) => before.push(f),
            None => before,
        }
    }
}

/// All six frameworks, in the order of the custom resource.
pub open spec fn all_frameworks() -> Seq<Framework> {
    seq![
        Framework::BatchJob,
        Framework::Pod,
        Framework::Deployment,
        Framework::StatefulSet,
        Framework::JobSet,
        Framework::LeaderWorkerSet,
    ]
}

/// Reads a framework from its name.
pub fn framework_from_name(s: &str) -> (r: Option<Framework>)
    ensures
        r == framework_of_name(s@),
{
    proof {
        reveal_strlit("BatchJob");
        reveal_strlit("Pod");
        reveal_strlit("Deployment");
        reveal_strlit("StatefulSet");
        reveal_strlit("JobSet");
        reveal_strlit("LeaderWorkerSet");
    }
    if crate::text::str_eq(s, "BatchJob") {
        Some(Framework::BatchJob)
    } else if crate::text::str_eq(s, "Pod") {
        Some(Framework::Pod)
    } else if crate::text::str_eq(s, "Deployment") {
        Some(Framework::Deployment)
    } else if crate::text::str_eq(s, "StatefulSet") {
        Some(Framework::StatefulSet)
    } else if crate::text::str_eq(s, "JobSet") {
        Some(Framework::JobSet)
    } else if crate::text::str_eq(s, "LeaderWorkerSet") {
        Some(Framework::LeaderWorkerSet)
    } else {
        None
    }
}

/// Collects the settings of a Kueue custom resource; what is left unset
/// takes its default when the configuration is built.
pub struct KueueConfigBuilder {
    pub name: Option<String>,
    pub namespace: Option<String>,
    pub management_state: Option<ManagementState>,
    pub frameworks: Vec<Framework>,
}

/// A Kueue custom resource.
pub struct KueueConfig {
    pub name: String,
    pub namespace: String,
    pub management_state: ManagementState,
    pub frameworks: Vec<Framework>,
}

impl KueueConfigBuilder {
    pub fn new() -> (r: Self)
        ensures
            r.name is None,
            r.namespace is None,
            r.management_state is None,
            r.frameworks@.len() == 0,
    {
        KueueConfigBuilder { name: None, namespace: None, management_state: None, frameworks: Vec::new() }
    }

    pub fn name(self, name: &str) -> (r: Self)
        ensures
            r.name matches Some(n) && n@ == name@,
            r.namespace == self.namespace,
            r.management_state == self.management_state,
            r.frameworks == self.frameworks,
    {
        KueueConfigBuilder { name: Some(String::from_str(name)), ..self }
    }

    pub fn namespace(self, namespace: &str) -> (r: Self)
        ensures
            r.namespace matches Some(n) && n@ == namespace@,
            r.name == self.name,
            r.management_state == self.management_state,
            r.frameworks == self.frameworks,
    {
        KueueConfigBuilder { namespace: Some(String::from_str(namespace)), ..self }
    }

    pub fn management_state(self, state: ManagementState) -> (r: Self)
        ensures
            r.management_state == Some(state),
            r.name == self.name,
            r.namespace == self.namespace,
            r.frameworks == self.frameworks,
    {
        KueueConfigBuilder { management_state: Some(state), ..self }
    }

    /// Adds one framework after those already chosen.
    pub fn framework(self, framework: Framework) -> (r: Self)
        ensures
            r.frameworks@ == self.frameworks@.push(framework),
            r.name == self.name,
            r.namespace == self.namespace,
            r.management_state == self.management_state,
    {
        let mut s = self;
        s.frameworks.push(framework);
        s
    }

    /// Replaces the frameworks chosen so far.
    pub fn frameworks(self, frameworks: Vec<Framework>) -> (r: Self)
        ensures
            r.frameworks == frameworks,
            r.name == self.name,
            r.namespace == self.namespace,
            r.management_state == self.management_state,
    {
        KueueConfigBuilder { frameworks, ..self }
    }

    /// The configuration: what was set, and the defaults for the rest (the
    /// name "cluster", the operator's namespace, managed, all frameworks).
    pub fn build(self) -> (r: Result<KueueConfig, String>)
        ensures
            r matches Ok(c) && c.name@ == (match self.name {
                Some(n) => n@,
                None => "cluster"@,
            }) && c.namespace@ == (match self.namespace {
                Some(n) => n@,
                None => "openshift-kueue-operator"@,
            }) && c.management_state == (match self.management_state {
                Some(m) => m,
                None => ManagementState::Managed,
            }) && c.frameworks@ == (if self.frameworks@.len() == 0 {
                all_frameworks()
            } else {
                self.frameworks@
            }),
    {
        let name = match self.name {
            Some(n) => n,
            None => String::from_str("cluster"),
        };
        let namespace = match self.namespace {
            Some(n) => n,
            None => String::from_str("openshift-kueue-operator"),
        };
        let management_state = match self.management_state {
            Some(m) => m,
            None => ManagementState::default(),
        };
        let frameworks = if self.frameworks.len() == 0 {
            Self::default_frameworks()
        } else {
            self.frameworks
        };
        Ok(KueueConfig { name, namespace, management_state, frameworks })
    }

    fn default_frameworks() -> (r: Vec<Framework>)
        ensures
            r@ == all_frameworks(),
    {
        let v = vec![
            Framework::BatchJob,
            Framework::Pod,
            Framework::Deployment,
            Framework::StatefulSet,
            Framework::JobSet,
            Framework::LeaderWorkerSet,
        ];
        assert(v@ =~= all_frameworks());
        v
    }
}

/// The manifest text up to the name.
pub open spec fn cr_head() -> Seq<char> {
    "apiVersion: kueue.openshift.io/v1\nkind: Kueue\nmetadata:\n  labels:\n    app.kubernetes.io/name: kueue-operator\n    app.kubernetes.io/managed-by: kustomize\n  name: "@
}

/// One line per framework, each an item of the frameworks list.
pub open spec fn frameworks_yaml(fs: Seq<Framework>) -> Seq<char>
    decreases fs.len(),
{
    if fs.len() == 0 {
        Seq::empty()
    } else if fs.len() == 1 {
        "      - "@ + framework_name(fs[0])
    } else {
        frameworks_yaml(fs.drop_last()) + "\n"@ + "      - "@ + framework_name(fs.last())
    }
}

/// The manifest of a Kueue custom resource.
pub open spec fn kueue_yaml(name: Seq<char>, namespace: Seq<char>, m: ManagementState, fs: Seq<Framework>) -> Seq<char> {
    cr_head() + name + "\n  namespace: "@ + namespace + "\nspec:\n  managementState: "@ + state_name(m)
        + "\n  config:\n    integrations:\n      frameworks:\n"@ + frameworks_yaml(fs) + "\n"@
}

impl KueueConfig {
    pub fn builder() -> (r: KueueConfigBuilder)
        ensures
            r.name is None,
            r.namespace is None,
            r.management_state is None,
            r.frameworks@.len() == 0,
    {
        KueueConfigBuilder::new()
    }

    /// The manifest that creates this custom resource.
    pub fn to_yaml(&self) -> (r: String)
        ensures
            r@ == kueue_yaml(self.name@, self.namespace@, self.management_state, self.frameworks@),
    {
        let mut s = String::from_str(
            "apiVersion: kueue.openshift.io/v1\nkind: Kueue\nmetadata:\n  labels:\n    app.kubernetes.io/name: kueue-operator\n    app.kubernetes.io/managed-by: kustomize\n  name: ",
        );
        s.append(self.name.as_str());
        s.append("\n  namespace: ");
        s.append(self.namespace.as_str());
        s.append("\nspec:\n  managementState: ");
        s.append(self.management_state.as_str());
        s.append("\n  config:\n    integrations:\n      frameworks:\n");
        let ghost head = s@;
        let mut i: usize = 0;
        while i < self.frameworks.len()
            invariant
                i <= self.frameworks@.len(),
                s@ == head + frameworks_yaml(self.frameworks@.take(i as int)),
            decreases self.frameworks@.len() - i,
        {
            let ghost before = s@;
            assert(self.frameworks@.take(i + 1).drop_last() =~= self.frameworks@.take(i as int));
            if i > 0 {
                s.append("\n");
            }
            s.append("      - ");
            s.append(self.frameworks[i].as_str());
            proof {
                let t = self.frameworks@.take(i + 1);
                if i == 0 {
                    assert(t[0] == self.frameworks@[0]);
                    assert(frameworks_yaml(self.frameworks@.take(0)) == Seq::<char>::empty());
                    assert(s@ =~= head + frameworks_yaml(t));
                } else {
                    assert(t.last() == self.frameworks@[i as int]);
                    assert(s@ =~= head + frameworks_yaml(t));
                }
            }
            i += 1;
        }
        assert(self.frameworks@.take(self.frameworks@.len() as int) =~= self.frameworks@);
        s.append("\n");
        s
    }
}

impl Default for KueueConfig {
    fn default() -> (r: Self)
        ensures
            r.name@ == "cluster"@,
            r.namespace@ == "openshift-kueue-operator"@,
            r.management_state == ManagementState::Managed,
            r.frameworks@ == all_frameworks(),
    {
        match KueueConfigBuilder::new().build() {
            Ok(c) => c,
            Err(_) => {
                assert(false);
                KueueConfig {
                    name: String::new(),
                    namespace: String::new(),
                    management_state: ManagementState::Managed,
                    frameworks: Vec::new(),
                }
            },
        }
    }
}

/// The framework names from an override: the pieces between commas, trimmed.
pub open spec fn override_names(o: Seq<char>) -> Seq<Seq<char>> {
    pieces_of(o, ',').map_values(|p: Seq<char>| trim(p))
}

/// The frameworks the settings and an override ask for.
pub open spec fn requested_frameworks(configured: Seq<Seq<char>>, frameworks_override: Option<&str>) -> Seq<Framework> {
    parse_frameworks(
        match frameworks_override {
            Some(o) => override_names(o@),
            None => configured,
        },
    )
}

/// The frameworks enabled: those asked for, or all when none is known.
pub open spec fn enabled_frameworks(configured: Seq<Seq<char>>, frameworks_override: Option<&str>) -> Seq<Framework> {
    if requested_frameworks(configured, frameworks_override).len() == 0 {
        all_frameworks()
    } else {
        requested_frameworks(configured, frameworks_override)
    }
}

fn parse_framework_names(names: &Vec<String>) -> (r: Vec<Framework>)
    ensures
        r@ == parse_frameworks(views(names@)),
{
    let mut fs: Vec<Framework> = Vec::new();
    let mut i: usize = 0;
    while i < names.len()
        invariant
            i <= names@.len(),
            fs@ == parse_frameworks(views(names@).take(i as int)),
        decreases names@.len() - i,
    {
        assert(views(names@).take(i + 1).drop_last() =~= views(names@).take(i as int));
        assert(views(names@).take(i + 1).last() == names@[i as int]@);
        match framework_from_name(names[i].as_str()) {
            Some(f) => fs.push(f),
            None => {},
        }
        i += 1;
    }
    assert(views(names@).take(names@.len() as int) =~= views(names@));
    fs
}

/// The Kueue custom resource that the settings describe, with the namespace
/// and the frameworks that the command line may override; an override that
/// names no known framework leaves all of them enabled.
pub fn build_kueue_config_from_settings(
    settings: &Settings,
    frameworks_override: Option<&str>,
    namespace_override: Option<&str>,
) -> (r: Result<KueueConfig, String>)
    ensures
        r matches Ok(c) && c.name@ == settings.kueue.name@ && c.namespace@ == (match namespace_override {
            Some(n) => n@,
            None => settings.kueue.namespace@,
        }) && c.management_state == ManagementState::Managed
            && c.frameworks@ == enabled_frameworks(views(settings.kueue.frameworks@), frameworks_override),
{
    let namespace = match namespace_override {
        Some(n) => n,
        None => settings.kueue.namespace.as_str(),
    };
    let builder = KueueConfig::builder().name(settings.kueue.name.as_str()).namespace(namespace);
    let names: Vec<String> = match frameworks_override {
        Some(o) => {
            let pieces = split_at_char(o, ',');
            let mut trimmed: Vec<String> = Vec::new();
            let mut i: usize = 0;
            while i < pieces.len()
                invariant
                    i <= pieces@.len(),
                    trimmed@.len() == i,
                    forall|j: int| 0 <= j < i ==> (#[trigger] trimmed@[j])@ == trim(pieces@[j]@),
                decreases pieces@.len() - i,
            {
                let t = trim_blanks(pieces[i].as_str());
                trimmed.push(t);
                i += 1;
            }
            assert(views(trimmed@) =~= views(pieces@).map_values(|p: Seq<char>| trim(p)));
            trimmed
        },
        None => {
            let mut copy: Vec<String> = Vec::new();
            let mut i: usize = 0;
            while i < settings.kueue.frameworks.len()
                invariant
                    i <= settings.kueue.frameworks@.len(),
                    copy@.len() == i,
                    forall|j: int| 0 <= j < i ==> (#[trigger] copy@[j])@ == settings.kueue.frameworks@[j]@,
                decreases settings.kueue.frameworks@.len() - i,
            {
                copy.push(settings.kueue.frameworks[i].clone());
                i += 1;
            }
            assert(views(copy@) =~= views(settings.kueue.frameworks@));
            copy
        },
    };
    let frameworks = parse_framework_names(&names);
    let builder = if frameworks.len() > 0 {
        builder.frameworks(frameworks)
    } else {
        builder
    };
    builder.build()
}

} // verus!
