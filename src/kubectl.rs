//! The commands given to the cluster's command-line client, and the reading
//! of what it prints.
use vstd::prelude::*;
use crate::text::{lower_of, lowercase};
use crate::text::{contains, contains_str, find_at, find_spec, find_stop, find_stop_spec, lines_of, split_lines, trim, trim_blanks, trim_leading, trim_start, views};

verus! {

fn push_str(v: &mut Vec<String>, s: &str)
    ensures
        views(final(v)@) == views(old(v)@).push(s@),
{
    let ghost before = v@;
    v.push(String::from_str(s));
    assert(views(v@) =~= views(before).push(s@));
}

/// The arguments of a wait for `condition` on `resource`. A resource given
/// by kind alone, without a name, is waited on for all its objects.
pub open spec fn wait_args(resource: Seq<char>, condition: Seq<char>, namespace: Option<Seq<char>>, timeout: Seq<char>) -> Seq<Seq<char>> {
    seq!["wait"@, "--for"@, condition, "--timeout"@, timeout] + (match namespace {
        Some(ns) => seq!["-n"@, ns],
        None => Seq::empty(),
    }) + seq![resource] + (if contains(resource, "/"@) { Seq::empty() } else { seq!["--all"@] })
}

/// The arguments that wait for `condition` on `resource`.
pub fn wait_for_condition(resource: &str, condition: &str, namespace: Option<&str>, timeout: &str) -> (r: Vec<String>)
    ensures
        views(r@) == wait_args(resource@, condition@, match namespace {
            Some(n) => Some(n@),
            None => None,
        }, timeout@),
{
    let mut v: Vec<String> = Vec::new();
    assert(views(v@) =~= Seq::<Seq<char>>::empty());
    push_str(&mut v, "wait");
    push_str(&mut v, "--for");
    push_str(&mut v, condition);
    push_str(&mut v, "--timeout");
    push_str(&mut v, timeout);
    let ghost head = views(v@);
    match namespace {
        Some(ns) => {
            push_str(&mut v, "-n");
            push_str(&mut v, ns);
        },
        None => {},
    }
    let ghost with_ns = views(v@);
    push_str(&mut v, resource);
    let ghost with_res = views(v@);
    if !contains_str(resource, "/") {
        push_str(&mut v, "--all");
    }
    assert(views(v@) =~= wait_args(resource@, condition@, match namespace {
        Some(n) => Some(n@),
        None => None,
    }, timeout@));
    v
}

/// The arguments that list the nodes in an output format.
pub fn get_nodes(output_format: &str) -> (r: Vec<String>)
    ensures
        views(r@) == seq!["get"@, "nodes"@, "-o"@, output_format@],
{
    let mut v: Vec<String> = Vec::new();
    assert(views(v@) =~= Seq::<Seq<char>>::empty());
    push_str(&mut v, "get");
    push_str(&mut v, "nodes");
    push_str(&mut v, "-o");
    push_str(&mut v, output_format);
    v
}

/// The arguments that set a label on a node, replacing an earlier value.
pub fn label_node(node_name: &str, label: &str) -> (r: Vec<String>)
    ensures
        views(r@) == seq!["label"@, "nodes"@, node_name@, label@, "--overwrite"@],
{
    let mut v: Vec<String> = Vec::new();
    assert(views(v@) =~= Seq::<Seq<char>>::empty());
    push_str(&mut v, "label");
    push_str(&mut v, "nodes");
    push_str(&mut v, node_name);
    push_str(&mut v, label);
    push_str(&mut v, "--overwrite");
    v
}

/// The arguments that read a resource through a JSONPath expression.
pub fn get_with_jsonpath(resource: &str, jsonpath: &str) -> (r: Vec<String>)
    ensures
        views(r@) == seq!["get"@, resource@, "-o"@, "jsonpath="@ + jsonpath@],
{
    let mut v: Vec<String> = Vec::new();
    assert(views(v@) =~= Seq::<Seq<char>>::empty());
    push_str(&mut v, "get");
    push_str(&mut v, resource);
    push_str(&mut v, "-o");
    let mut jp = String::from_str("jsonpath=");
    jp.append(jsonpath);
    let ghost before = v@;
    v.push(jp);
    assert(views(v@) =~= views(before).push("jsonpath="@ + jsonpath@));
    v
}

/// The quoted value after the first "gitVersion" key of a JSON log line.
pub open spec fn git_version_of(line: Seq<char>) -> Option<Seq<char>> {
    match find_spec(line, "\"gitVersion\""@, 0) {
        None => None,
        Some(pos) => {
            let after = line.subrange(pos, line.len() as int);
            match find_spec(after, ":"@, 0) {
                None => None,
                Some(c) => {
                    let v = trim_start(after.subrange(c + 1, after.len() as int));
                    match find_spec(v, "\""@, 0) {
                        None => None,
                        Some(q) => match find_spec(v, "\""@, q + 1) {
                            None => None,
                            Some(e) => Some(v.subrange(q + 1, e)),
                        },
                    }
                },
            }
        },
    }
}

/// The word after "openshift-kueue-operator version".
pub open spec fn operator_version_of(line: Seq<char>) -> Option<Seq<char>> {
    match find_spec(line, "openshift-kueue-operator version"@, 0) {
        None => None,
        Some(pos) => {
            let after = trim(line.subrange(pos + 32, line.len() as int));
            match find_stop_spec(after, 0, false) {
                Some(e) => Some(after.subrange(0, e)),
                None => if after.len() > 0 {
                    Some(after)
                } else {
                    None
                },
            }
        },
    }
}

/// The value after the word "version", in any case: quoted, or after a
/// colon or an equals sign up to a blank or a comma.
pub open spec fn generic_version_of(line: Seq<char>) -> Option<Seq<char>> {
    match find_spec(lower_of(line), "version"@, 0) {
        None => None,
        Some(pos) => if pos > line.len() {
            None
        } else {
            let av = line.subrange(pos, line.len() as int);
            let quoted = match find_spec(av, "\""@, 0) {
                Some(s) => match find_spec(av, "\""@, s + 1) {
                    Some(e) => Some(av.subrange(s + 1, e)),
                    None => None,
                },
                None => None,
            };
            if quoted is Some {
                quoted
            } else {
                let sep = match find_spec(av, ":"@, 0) {
                    Some(c) => Some(c),
                    None => find_spec(av, "="@, 0),
                };
                match sep {
                    None => None,
                    Some(c) => {
                        let vp = trim(av.subrange(c + 1, av.len() as int));
                        match find_stop_spec(vp, 0, true) {
                            Some(e) => Some(vp.subrange(0, e)),
                            None => if vp.len() > 0 {
                                Some(vp)
                            } else {
                                None
                            },
                        }
                    },
                }
            }
        },
    }
}

/// The version that a log line announces, by the first pattern that matches.
pub open spec fn version_of_line(line: Seq<char>) -> Option<Seq<char>> {
    if git_version_of(line) is Some {
        git_version_of(line)
    } else if operator_version_of(line) is Some {
        operator_version_of(line)
    } else {
        generic_version_of(line)
    }
}

fn quoted_after(v: &str, from: usize) -> (r: Option<String>)
    ensures
        (match r {
            Some(x) => Some(x@),
            None => None,
        }) == (match find_spec(v@, "\""@, from as int) {
            None => None,
            Some(q) => match find_spec(v@, "\""@, q + 1) {
                None => None,
                Some(e) => Some(v@.subrange(q + 1, e)),
            },
        }),
{
    proof {
        reveal_strlit("\"");
    }
    let n = v.unicode_len();
    match find_at(v, "\"", from) {
        None => None,
        Some(q) => match find_at(v, "\"", q + 1) {
            None => None,
            Some(e) => Some(String::from_str(v.substring_char(q + 1, e))),
        },
    }
}

fn git_version(line: &str) -> (r: Option<String>)
    ensures
        (match r {
            Some(x) => Some(x@),
            None => None,
        }) == git_version_of(line@),
{
    proof {
        reveal_strlit(":");
    }
    let n = line.unicode_len();
    match find_at(line, "\"gitVersion\"", 0) {
        None => None,
        Some(pos) => {
            let after = line.substring_char(pos, n);
            let m = after.unicode_len();
            match find_at(after, ":", 0) {
                None => None,
                Some(c) => {
                    let v = trim_leading(after.substring_char(c + 1, m));
                    quoted_after(v, 0)
                },
            }
        },
    }
}

fn word_or_rest(s: &str, comma: bool) -> (r: Option<String>)
    ensures
        (match r {
            Some(x) => Some(x@),
            None => None,
        }) == (match find_stop_spec(s@, 0, comma) {
            Some(e) => Some(s@.subrange(0, e)),
            None => if s@.len() > 0 {
                Some(s@)
            } else {
                None
            },
        }),
{
    match find_stop(s, comma) {
        Some(e) => Some(String::from_str(s.substring_char(0, e))),
        None => if !s.is_empty() {
            Some(String::from_str(s))
        } else {
            None
        },
    }
}

fn operator_version(line: &str) -> (r: Option<String>)
    ensures
        (match r {
            Some(x) => Some(x@),
            None => None,
        }) == operator_version_of(line@),
{
    proof {
        reveal_strlit("openshift-kueue-operator version");
    }
    let n = line.unicode_len();
    match find_at(line, "openshift-kueue-operator version", 0) {
        None => None,
        Some(pos) => {
            let after = trim_blanks(line.substring_char(pos + 32, n));
            word_or_rest(after.as_str(), false)
        },
    }
}

fn generic_version(line: &str) -> (r: Option<String>)
    ensures
        (match r {
            Some(x) => Some(x@),
            None => None,
        }) == generic_version_of(line@),
{
    proof {
        reveal_strlit(":");
        reveal_strlit("=");
    }
    let lowered = lowercase(line);
    let n = line.unicode_len();
    match find_at(lowered.as_str(), "version", 0) {
        None => None,
        Some(pos) => if pos > n {
            None
        } else {
            let av = line.substring_char(pos, n);
            let m = av.unicode_len();
            let quoted = quoted_after(av, 0);
            if quoted.is_some() {
                quoted
            } else {
                let sep = match find_at(av, ":", 0) {
                    Some(c) => Some(c),
                    None => find_at(av, "=", 0),
                };
                match sep {
                    None => None,
                    Some(c) => {
                        let vp = trim_blanks(av.substring_char(c + 1, m));
                        word_or_rest(vp.as_str(), true)
                    },
                }
            }
        },
    }
}

/// The version that a log line announces, if any.
pub fn extract_version_from_log(line: &str) -> (r: Option<String>)
    ensures
        (match r {
            Some(x) => Some(x@),
            None => None,
        }) == version_of_line(line@),
{
    let g = git_version(line);
    if g.is_some() {
        return g;
    }
    let o = operator_version(line);
    if o.is_some() {
        return o;
    }
    generic_version(line)
}

/// The version announced by the first line of `lines` that announces one.
pub open spec fn first_version(lines: Seq<Seq<char>>) -> Option<Seq<char>>
    decreases lines.len(),
{
    if lines.len() == 0 {
        None
    } else if version_of_line(lines[0]) is Some {
        version_of_line(lines[0])
    } else {
        first_version(lines.drop_first())
    }
}

/// The version announced in a log: that of its first line that announces one.
pub fn version_from_logs(logs: &str) -> (r: Option<String>)
    ensures
        (match r {
            Some(x) => Some(x@),
            None => None,
        }) == first_version(lines_of(logs@)),
{
    let lines = split_lines(logs);
    let mut i: usize = 0;
    assert(lines_of(logs@).skip(0) =~= lines_of(logs@));
    while i < lines.len()
        invariant
            views(lines@) == lines_of(logs@),
            i <= lines@.len(),
            first_version(lines_of(logs@)) == first_version(lines_of(logs@).skip(i as int)),
        decreases lines@.len() - i,
    {
        let ghost rest = lines_of(logs@).skip(i as int);
        assert(rest[0] == lines@[i as int]@);
        assert(rest.drop_first() =~= lines_of(logs@).skip(i + 1));
        let v = extract_version_from_log(lines[i].as_str());
        if v.is_some() {
            return v;
        }
        i += 1;
    }
    None
}

/// Reads the operator's version: the pod must exist, and its log announce it.
pub fn get_operator_version(pod_name: &str, logs: &str) -> (r: Result<String, String>)
    ensures
        pod_name@.len() == 0 ==> (r matches Err(m) && m@ == "No operator pod found"@),
        pod_name@.len() > 0 && first_version(lines_of(logs@)) is Some ==> (r matches Ok(x) && Some(x@) == first_version(lines_of(logs@))),
        pod_name@.len() > 0 && first_version(lines_of(logs@)) is None ==> (r matches Err(m)
            && m@ == "Version not found in operator logs"@),
{
    if pod_name.is_empty() {
        return Err(String::from_str("No operator pod found"));
    }
    match version_from_logs(logs) {
        Some(v) => Ok(v),
        None => Err(String::from_str("Version not found in operator logs")),
    }
}

/// Reads the version of Kueue's controller manager: the pod must exist, and
/// its log announce it.
pub fn get_kueue_manager_version(pod_name: &str, logs: &str) -> (r: Result<String, String>)
    ensures
        pod_name@.len() == 0 ==> (r matches Err(m) && m@ == "No kueue-controller-manager pod found"@),
        pod_name@.len() > 0 && first_version(lines_of(logs@)) is Some ==> (r matches Ok(x) && Some(x@) == first_version(lines_of(logs@))),
        pod_name@.len() > 0 && first_version(lines_of(logs@)) is None ==> (r matches Err(m)
            && m@ == "Version not found in kueue-controller-manager logs"@),
{
    if pod_name.is_empty() {
        return Err(String::from_str("No kueue-controller-manager pod found"));
    }
    match version_from_logs(logs) {
        Some(v) => Ok(v),
        None => Err(String::from_str("Version not found in kueue-controller-manager logs")),
    }
}

} // verus!
