//! Errors that tell the user what went wrong and what to try next.
use vstd::prelude::*;
use crate::text::{contains, contains_str, find, find_from, first_occurrence_from, views};

verus! {

/// An error with suggestions and, possibly, a link to documentation.
pub struct KueueDevError {
    pub message: String,
    pub suggestions: Vec<String>,
    pub docs_link: Option<String>,
}

fn join2(a: &str, b: &str) -> (r: String)
    ensures
        r@ == a@ + b@,
{
    let mut s = String::from_str(a);
    s.append(b);
    s
}

fn join3(a: &str, b: &str, c: &str) -> (r: String)
    ensures
        r@ == a@ + b@ + c@,
{
    let mut s = join2(a, b);
    s.append(c);
    s
}

fn join5(a: &str, b: &str, c: &str, d: &str, e: &str) -> (r: String)
    ensures
        r@ == a@ + b@ + c@ + d@ + e@,
{
    let mut s = join3(a, b, c);
    s.append(d);
    s.append(e);
    s
}

impl KueueDevError {
    pub fn new(message: &str) -> (r: Self)
        ensures
            r.message@ == message@,
            r.suggestions@.len() == 0,
            r.docs_link is None,
    {
        KueueDevError { message: String::from_str(message), suggestions: Vec::new(), docs_link: None }
    }

    /// Adds a suggestion after those already there.
    pub fn suggest(self, suggestion: &str) -> (r: Self)
        ensures
            r.message == self.message,
            views(r.suggestions@) == views(self.suggestions@).push(suggestion@),
            r.docs_link == self.docs_link,
    {
        let mut e = self;
        let ghost before = e.suggestions@;
        e.suggestions.push(String::from_str(suggestion));
        assert(views(e.suggestions@) =~= views(before).push(suggestion@));
        e
    }

    /// Sets the documentation link.
    pub fn with_docs(self, link: &str) -> (r: Self)
        ensures
            r.message == self.message,
            r.suggestions == self.suggestions,
            r.docs_link matches Some(l) && l@ == link@,
    {
        KueueDevError { docs_link: Some(String::from_str(link)), ..self }
    }

    pub fn cluster_not_found(name: &str) -> (r: Self)
        ensures
            r.message@ == "Kind cluster '"@ + name@ + "' not found"@,
            views(r.suggestions@) == seq![
                "Create cluster with: kueue-dev cluster create --name "@ + name@,
                "List existing clusters with: kueue-dev cluster list"@,
            ],
            r.docs_link is None,
    {
        let m = join3("Kind cluster '", name, "' not found");
        let s1 = join2("Create cluster with: kueue-dev cluster create --name ", name);
        Self::new(m.as_str()).suggest(s1.as_str()).suggest("List existing clusters with: kueue-dev cluster list")
    }

    pub fn kubeconfig_not_found(path: &str) -> (r: Self)
        ensures
            r.message@ == "Kubeconfig not found: "@ + path@,
            views(r.suggestions@) == seq![
                "Verify the cluster exists"@,
                "Check if you have the correct cluster name"@,
                "Use --kubeconfig flag to specify a custom kubeconfig"@,
            ],
            r.docs_link is None,
    {
        let m = join2("Kubeconfig not found: ", path);
        Self::new(m.as_str()).suggest("Verify the cluster exists").suggest(
            "Check if you have the correct cluster name",
        ).suggest("Use --kubeconfig flag to specify a custom kubeconfig")
    }

    pub fn tool_not_found(tool: &str, install_hint: &str) -> (r: Self)
        ensures
            r.message@ == "Required tool '"@ + tool@ + "' not found"@,
            views(r.suggestions@) == seq!["Install with: "@ + install_hint@, "Ensure the tool is in your PATH"@],
            r.docs_link is None,
    {
        let m = join3("Required tool '", tool, "' not found");
        let s1 = join2("Install with: ", install_hint);
        Self::new(m.as_str()).suggest(s1.as_str()).suggest("Ensure the tool is in your PATH")
    }

    pub fn image_not_found(image: &str) -> (r: Self)
        ensures
            r.message@ == "Image not found: "@ + image@,
            views(r.suggestions@) == seq![
                "Verify the image name is correct"@,
                "Check if the image exists in the registry"@,
                "Run with --verbose to see more details"@,
            ],
            r.docs_link is None,
    {
        let m = join2("Image not found: ", image);
        Self::new(m.as_str()).suggest("Verify the image name is correct").suggest(
            "Check if the image exists in the registry",
        ).suggest("Run with --verbose to see more details")
    }

    pub fn image_config_error(path: &str, reason: &str) -> (r: Self)
        ensures
            r.message@ == "Failed to load image config from "@ + path@ + ": "@ + reason@,
            views(r.suggestions@) == seq![
                "Verify the file exists and is readable"@,
                "Check that the JSON format is valid"@,
                "Example format: {\"operator\": \"quay.io/org/operator:tag\", ...}"@,
            ],
            r.docs_link is None,
    {
        let mut m = join3("Failed to load image config from ", path, ": ");
        m.append(reason);
        Self::new(m.as_str()).suggest("Verify the file exists and is readable").suggest(
            "Check that the JSON format is valid",
        ).suggest("Example format: {\"operator\": \"quay.io/org/operator:tag\", ...}")
    }

    pub fn deployment_not_ready(name: &str, namespace: &str) -> (r: Self)
        ensures
            r.message@ == "Deployment "@ + namespace@ + "/"@ + name@ + " failed to become ready"@,
            views(r.suggestions@) == seq![
                "Check pod status: kubectl get pods -n "@ + namespace@,
                "View logs: kubectl logs -n "@ + namespace@ + " -l app="@ + name@,
                "Increase timeout with --timeout flag"@,
            ],
            r.docs_link is None,
    {
        let m = join5("Deployment ", namespace, "/", name, " failed to become ready");
        let s1 = join2("Check pod status: kubectl get pods -n ", namespace);
        let mut s2 = join3("View logs: kubectl logs -n ", namespace, " -l app=");
        s2.append(name);
        Self::new(m.as_str()).suggest(s1.as_str()).suggest(s2.as_str()).suggest("Increase timeout with --timeout flag")
    }

    pub fn permission_denied(operation: &str) -> (r: Self)
        ensures
            r.message@ == "Permission denied: "@ + operation@,
            views(r.suggestions@) == seq![
                "Verify you have sufficient cluster permissions"@,
                "Check if you need cluster-admin role"@,
                "For OpenShift: ensure you're logged in as a privileged user"@,
            ],
            r.docs_link is None,
    {
        let m = join2("Permission denied: ", operation);
        Self::new(m.as_str()).suggest("Verify you have sufficient cluster permissions").suggest(
            "Check if you need cluster-admin role",
        ).suggest("For OpenShift: ensure you're logged in as a privileged user")
    }

    pub fn test_failed(reason: &str) -> (r: Self)
        ensures
            r.message@ == "Tests failed: "@ + reason@,
            views(r.suggestions@) == seq![
                "Review test output above for specific failures"@,
                "Run with --focus to test specific features"@,
                "Check operator logs: kubectl logs -n openshift-kueue-operator -l name=openshift-kueue-operator"@,
            ],
            r.docs_link is None,
    {
        let m = join2("Tests failed: ", reason);
        Self::new(m.as_str()).suggest("Review test output above for specific failures").suggest(
            "Run with --focus to test specific features",
        ).suggest("Check operator logs: kubectl logs -n openshift-kueue-operator -l name=openshift-kueue-operator")
    }

    pub fn namespace_conflict(namespace: &str) -> (r: Self)
        ensures
            r.message@ == "Namespace '"@ + namespace@ + "' already exists with conflicting resources"@,
            views(r.suggestions@) == seq![
                "Clean up existing resources: kueue-dev cleanup"@,
                "Delete namespace: kubectl delete namespace "@ + namespace@,
                "Use a different cluster or namespace"@,
            ],
            r.docs_link is None,
    {
        let m = join3("Namespace '", namespace, "' already exists with conflicting resources");
        let s2 = join2("Delete namespace: kubectl delete namespace ", namespace);
        Self::new(m.as_str()).suggest("Clean up existing resources: kueue-dev cleanup").suggest(s2.as_str()).suggest(
            "Use a different cluster or namespace",
        )
    }

    pub fn connection_timeout(resource: &str) -> (r: Self)
        ensures
            r.message@ == "Timeout waiting for "@ + resource@,
            views(r.suggestions@) == seq![
                "Check if the cluster is healthy"@,
                "Verify network connectivity"@,
                "Increase timeout value"@,
                "Check for pending pods: kubectl get pods --all-namespaces"@,
            ],
            r.docs_link is None,
    {
        let m = join2("Timeout waiting for ", resource);
        Self::new(m.as_str()).suggest("Check if the cluster is healthy").suggest("Verify network connectivity").suggest(
            "Increase timeout value",
        ).suggest("Check for pending pods: kubectl get pods --all-namespaces")
    }

    pub fn version_mismatch(tool: &str, current: &str, required: &str) -> (r: Self)
        ensures
            r.message@ == tool@ + " version "@ + current@ + " does not meet requirement "@ + required@,
            views(r.suggestions@) == seq![
                "Upgrade "@ + tool@ + " to version "@ + required@,
                "Check installation instructions for your platform"@,
            ],
            r.docs_link is None,
    {
        let m = join5(tool, " version ", current, " does not meet requirement ", required);
        let s1 = join3("Upgrade ", tool, " to version ");
        let s1 = join2(s1.as_str(), required);
        Self::new(m.as_str()).suggest(s1.as_str()).suggest("Check installation instructions for your platform")
    }

    pub fn missing_prerequisite(prereq: &str, reason: &str) -> (r: Self)
        ensures
            r.message@ == "Missing prerequisite: "@ + prereq@ + " ("@ + reason@ + ")"@,
            views(r.suggestions@) == seq!["Run 'kueue-dev check' to see all prerequisites"@, "Install "@ + prereq@],
            r.docs_link is None,
    {
        let m = join5("Missing prerequisite: ", prereq, " (", reason, ")");
        let s2 = join2("Install ", prereq);
        Self::new(m.as_str()).suggest("Run 'kueue-dev check' to see all prerequisites").suggest(s2.as_str())
    }

    pub fn openshift_not_logged_in() -> (r: Self)
        ensures
            r.message@ == "Not logged into an OpenShift cluster"@,
            views(r.suggestions@) == seq![
                "Log in with: oc login <cluster-url>"@,
                "Verify credentials and cluster accessibility"@,
            ],
            r.docs_link is None,
    {
        Self::new("Not logged into an OpenShift cluster").suggest("Log in with: oc login <cluster-url>").suggest(
            "Verify credentials and cluster accessibility",
        )
    }

    pub fn olm_not_installed() -> (r: Self)
        ensures
            r.message@ == "OLM (Operator Lifecycle Manager) is not installed on the cluster"@,
            views(r.suggestions@) == seq![
                "OLM will be automatically installed during deployment"@,
                "Or manually install with: operator-sdk olm install"@,
            ],
            r.docs_link is None,
    {
        Self::new("OLM (Operator Lifecycle Manager) is not installed on the cluster").suggest(
            "OLM will be automatically installed during deployment",
        ).suggest("Or manually install with: operator-sdk olm install")
    }
}

/// `p` first stands in `s` at `i`.
pub open spec fn first_at(s: Seq<char>, p: Seq<char>, i: int) -> bool {
    first_occurrence_from(s, p, 0, Some(i as usize)) && 0 <= i
}

/// "cluster '" first stands in `msg` at `a`, and the next quote after it at `b`.
pub open spec fn quote_span(msg: Seq<char>, a: int, b: int) -> bool {
    first_at(msg, "cluster '"@, a) && 0 <= b && first_occurrence_from(msg, "'"@, a + 9, Some(b as usize))
}

/// The cluster name that an error message quotes after "cluster '", up to
/// the next quote.
pub open spec fn quoted_cluster_name(msg: Seq<char>, r: Option<Seq<char>>) -> bool {
    match r {
        Some(n) => exists|a: int, b: int| #[trigger] quote_span(msg, a, b) && n == msg.subrange(a + 9, b),
        None => !contains(msg, "cluster '"@) || exists|a: int|
            #[trigger] first_at(msg, "cluster '"@, a) && first_occurrence_from(msg, "'"@, a + 9, None),
    }
}

/// Extracts the cluster name that an error message quotes.
pub fn extract_cluster_name(msg: &str) -> (r: Option<String>)
    ensures
        quoted_cluster_name(msg@, match r {
            Some(n) => Some(n@),
            None => None,
        }),
{
    proof {
        reveal_strlit("cluster '");
    }
    match find(msg, "cluster '") {
        Some(start) => {
            let n = msg.unicode_len();
            assert(start + 9 <= n);
            match find_from(msg, "'", start + 9) {
                Some(end) => {
                    let n = msg.substring_char(start + 9, end);
                    let r = String::from_str(n);
                    assert(quote_span(msg@, start as int, end as int));
                    Some(r)
                },
                None => {
                    assert(first_at(msg@, "cluster '"@, start as int));
                    None
                },
            }
        },
        None => {
            assert forall|j: int| !#[trigger] crate::text::occurs_at(msg@, "cluster '"@, j) by {
                if 0 <= j {
                    assert(!crate::text::occurs_at(msg@, "cluster '"@, j));
                }
            }
            None
        },
    }
}

/// The error that a failure's text most likely means, with its suggestions.
pub open spec fn enhanced_kind(e: Seq<char>) -> int {
    if contains(e, "not found"@) && contains(e, "cluster"@) {
        0
    } else if contains(e, "connection refused"@) || contains(e, "timeout"@) {
        1
    } else if contains(e, "unauthorized"@) || contains(e, "forbidden"@) {
        2
    } else if contains(e, "not logged"@) {
        3
    } else {
        4
    }
}

/// Turns the text of a failure into an error with suggestions: a missing
/// cluster, a connection timeout, a denied permission, a missing login, or
/// else the text itself with general advice.
pub fn enhance_error(err: &str) -> (r: KueueDevError)
    ensures
        enhanced_kind(err@) == 0 ==> exists|n: Option<Seq<char>>| #[trigger] quoted_cluster_name(err@, n)
            && r.message@ == "Kind cluster '"@ + (match n {
                Some(x) => x,
                None => "unknown"@,
            }) + "' not found"@,
        enhanced_kind(err@) == 1 ==> r.message@ == "Timeout waiting for "@ + "cluster"@,
        enhanced_kind(err@) == 2 ==> r.message@ == "Permission denied: "@ + "cluster operation"@,
        enhanced_kind(err@) == 3 ==> r.message@ == "Not logged into an OpenShift cluster"@,
        enhanced_kind(err@) == 4 ==> r.message@ == err@ && views(r.suggestions@) == seq![
            "Run with --verbose for more details"@,
            "Check logs for additional context"@,
        ],
{
    if contains_str(err, "not found") && contains_str(err, "cluster") {
        let found = extract_cluster_name(err);
        let ghost n = match &found {
            Some(x) => Some(x@),
            None => None,
        };
        let name = match found {
            Some(n) => n,
            None => String::from_str("unknown"),
        };
        let r = KueueDevError::cluster_not_found(name.as_str());
        assert(quoted_cluster_name(err@, n));
        return r;
    }
    if contains_str(err, "connection refused") || contains_str(err, "timeout") {
        return KueueDevError::connection_timeout("cluster");
    }
    if contains_str(err, "unauthorized") || contains_str(err, "forbidden") {
        return KueueDevError::permission_denied("cluster operation");
    }
    if contains_str(err, "not logged") {
        return KueueDevError::openshift_not_logged_in();
    }
    KueueDevError::new(err).suggest("Run with --verbose for more details").suggest("Check logs for additional context")
}

} // verus!
