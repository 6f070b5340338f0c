//! Removing what end-to-end tests leave in a cluster: finalizers are cleared
//! first, so that deletion cannot hang, then the resources are deleted. Each
//! function turns a listing into the commands to run; a failing command is
//! ignored by the caller.
use vstd::prelude::*;
use crate::kind::{names_in, parse_cluster_list};
use crate::text::{contains, contains_str, lines_of, split_lines, trim, trim_blanks, views};

verus! {

/// The merge patch that clears an object's finalizers.
pub open spec fn clear_finalizers() -> Seq<char> {
    "{\"metadata\":{\"finalizers\":[]}}"@
}

/// The cluster-wide kinds whose objects the tests create.
pub open spec fn test_resource_kinds() -> Seq<Seq<char>> {
    seq!["workloadpriorityclass"@, "clusterqueue"@, "resourceflavor"@, "cohort"@, "admissioncheck"@]
}

/// The views of a list of commands.
pub open spec fn command_views(cmds: Seq<Vec<String>>) -> Seq<Seq<Seq<char>>> {
    cmds.map_values(|c: Vec<String>| views(c@))
}

/// The arguments that clear the finalizers of one object.
pub open spec fn patch_args(object: Seq<char>, namespace: Option<Seq<char>>) -> Seq<Seq<char>> {
    seq!["patch"@] + (match namespace {
        Some(ns) => seq!["-n"@, ns],
        None => Seq::empty(),
    }) + seq![object, "--type=merge"@, "-p"@, clear_finalizers()]
}

/// The arguments that delete every object of a kind.
pub open spec fn delete_all_args(kind: Seq<char>, namespace: Option<Seq<char>>) -> Seq<Seq<char>> {
    seq!["delete"@, kind, "--all"@] + (match namespace {
        Some(ns) => seq!["-n"@, ns],
        None => seq!["--all-namespaces"@],
    })
}

/// The arguments that list the objects of a kind by name.
pub open spec fn list_args(kind: Seq<char>, namespace: Option<Seq<char>>) -> Seq<Seq<char>> {
    seq!["get"@, kind, "-o"@, "name"@] + (match namespace {
        Some(ns) => seq!["-n"@, ns],
        None => seq!["--all-namespaces"@],
    })
}

fn push_str(v: &mut Vec<String>, s: &str)
    ensures
        views(final(v)@) == views(old(v)@).push(s@),
{
    let ghost before = v@;
    v.push(String::from_str(s));
    assert(views(v@) =~= views(before).push(s@));
}

fn push_cmd(cmds: &mut Vec<Vec<String>>, c: Vec<String>)
    ensures
        command_views(final(cmds)@) == command_views(old(cmds)@).push(views(c@)),
{
    let ghost before = cmds@;
    cmds.push(c);
    assert(command_views(cmds@) =~= command_views(before).push(views(c@)));
}

/// The kinds cleaned cluster-wide, in order.
pub fn test_resource_kind_names() -> (r: Vec<&'static str>)
    ensures
        r@.len() == 5,
        forall|i: int| 0 <= i < 5 ==> (#[trigger] r@[i])@ == test_resource_kinds()[i],
{
    vec!["workloadpriorityclass", "clusterqueue", "resourceflavor", "cohort", "admissioncheck"]
}

/// The arguments that list the objects of a kind.
pub fn list_command(kind: &str, namespace: Option<&str>) -> (r: Vec<String>)
    ensures
        views(r@) == list_args(kind@, match namespace {
            Some(s) => Some(s@),
            None => None,
        }),
{
    let mut v: Vec<String> = Vec::new();
    assert(views(v@) =~= Seq::<Seq<char>>::empty());
    push_str(&mut v, "get");
    push_str(&mut v, kind);
    push_str(&mut v, "-o");
    push_str(&mut v, "name");
    match namespace {
        Some(ns) => {
            push_str(&mut v, "-n");
            push_str(&mut v, ns);
        },
        None => push_str(&mut v, "--all-namespaces"),
    }
    assert(views(v@) =~= list_args(kind@, match namespace {
        Some(s) => Some(s@),
        None => None,
    }));
    v
}

fn patch_command(object: &str, namespace: Option<&str>) -> (r: Vec<String>)
    ensures
        views(r@) == patch_args(object@, match namespace {
            Some(s) => Some(s@),
            None => None,
        }),
{
    let mut v: Vec<String> = Vec::new();
    assert(views(v@) =~= Seq::<Seq<char>>::empty());
    push_str(&mut v, "patch");
    match namespace {
        Some(ns) => {
            push_str(&mut v, "-n");
            push_str(&mut v, ns);
        },
        None => {},
    }
    push_str(&mut v, object);
    push_str(&mut v, "--type=merge");
    push_str(&mut v, "-p");
    push_str(&mut v, "{\"metadata\":{\"finalizers\":[]}}");
    assert(views(v@) =~= patch_args(object@, match namespace {
        Some(s) => Some(s@),
        None => None,
    }));
    v
}

fn delete_all_command(kind: &str, namespace: Option<&str>) -> (r: Vec<String>)
    ensures
        views(r@) == delete_all_args(kind@, match namespace {
            Some(s) => Some(s@),
            None => None,
        }),
{
    let mut v: Vec<String> = Vec::new();
    assert(views(v@) =~= Seq::<Seq<char>>::empty());
    push_str(&mut v, "delete");
    push_str(&mut v, kind);
    push_str(&mut v, "--all");
    match namespace {
        Some(ns) => {
            push_str(&mut v, "-n");
            push_str(&mut v, ns);
        },
        None => push_str(&mut v, "--all-namespaces"),
    }
    assert(views(v@) =~= delete_all_args(kind@, match namespace {
        Some(s) => Some(s@),
        None => None,
    }));
    v
}

/// The commands that clear the finalizers of each named object.
pub open spec fn patch_all_args(objects: Seq<Seq<char>>, namespace: Option<Seq<char>>) -> Seq<Seq<Seq<char>>> {
    objects.map_values(|o: Seq<char>| patch_args(o, namespace))
}

fn patch_all(cmds: &mut Vec<Vec<String>>, objects: &Vec<String>, namespace: Option<&str>)
    ensures
        command_views(final(cmds)@) == command_views(old(cmds)@) + patch_all_args(views(objects@), match namespace {
            Some(s) => Some(s@),
            None => None,
        }),
{
    let ghost start = command_views(cmds@);
    let ghost ns = match namespace {
        Some(s) => Some(s@),
        None => None,
    };
    let mut i: usize = 0;
    while i < objects.len()
        invariant
            i <= objects@.len(),
            ns == (match namespace {
                Some(s) => Some(s@),
                None => None,
            }),
            command_views(cmds@) == start + patch_all_args(views(objects@).take(i as int), ns),
        decreases objects@.len() - i,
    {
        let c = patch_command(objects[i].as_str(), namespace);
        push_cmd(cmds, c);
        assert(patch_all_args(views(objects@).take(i + 1), ns) =~= patch_all_args(views(objects@).take(i as int), ns).push(
            patch_args(objects@[i as int]@, ns),
        ));
        i += 1;
    }
    assert(views(objects@).take(objects@.len() as int) =~= views(objects@));
}

/// The commands that clean the objects of a kind: when the listing has any
/// line, clear the finalizers of each object listed, then delete them all.
pub open spec fn resource_cleanup(kind: Seq<char>, namespace: Option<Seq<char>>, listing: Seq<char>) -> Seq<Seq<Seq<char>>> {
    if lines_of(listing).len() == 0 {
        Seq::empty()
    } else {
        patch_all_args(names_in(lines_of(listing)), namespace) + seq![delete_all_args(kind, namespace)]
    }
}

/// The commands that clean the objects of `kind` from their listing.
pub fn cleanup_resource(kind: &str, namespace: Option<&str>, listing: &str) -> (r: Vec<Vec<String>>)
    ensures
        command_views(r@) == resource_cleanup(kind@, match namespace {
            Some(s) => Some(s@),
            None => None,
        }, listing@),
{
    let mut cmds: Vec<Vec<String>> = Vec::new();
    let lines = split_lines(listing);
    if lines.len() == 0 {
        assert(command_views(cmds@) =~= Seq::<Seq<Seq<char>>>::empty());
        return cmds;
    }
    let names = parse_cluster_list(listing);
    assert(command_views(cmds@) =~= Seq::<Seq<Seq<char>>>::empty());
    patch_all(&mut cmds, &names, namespace);
    let d = delete_all_command(kind, namespace);
    push_cmd(&mut cmds, d);
    cmds
}

/// A priority class that the tests created: not one of the system's.
pub open spec fn is_test_priority_class(line: Seq<char>) -> bool {
    !contains(line, "system-"@)
}

/// The lines that name test priority classes.
pub open spec fn test_priority_classes(lines: Seq<Seq<char>>) -> Seq<Seq<char>>
    decreases lines.len(),
{
    if lines.len() == 0 {
        Seq::empty()
    } else if is_test_priority_class(lines.last()) {
        test_priority_classes(lines.drop_last()).push(lines.last())
    } else {
        test_priority_classes(lines.drop_last())
    }
}

/// A namespace that an end-to-end test created.
pub open spec fn is_test_namespace(line: Seq<char>) -> bool {
    contains(line, "e2e-"@) || contains(line, "sts-e2e-"@) || contains(line, "deployment-e2e-"@) || contains(
        line,
        "lws-e2e-"@,
    ) || contains(line, "pod-e2e-"@) || contains(line, "jobset-e2e-"@)
}

/// The lines that name test namespaces.
pub open spec fn test_namespace_lines(lines: Seq<Seq<char>>) -> Seq<Seq<char>>
    decreases lines.len(),
{
    if lines.len() == 0 {
        Seq::empty()
    } else if is_test_namespace(lines.last()) {
        test_namespace_lines(lines.drop_last()).push(lines.last())
    } else {
        test_namespace_lines(lines.drop_last())
    }
}

fn test_namespace_line(line: &str) -> (r: bool)
    ensures
        r == is_test_namespace(line@),
{
    contains_str(line, "e2e-") || contains_str(line, "sts-e2e-") || contains_str(line, "deployment-e2e-")
        || contains_str(line, "lws-e2e-") || contains_str(line, "pod-e2e-") || contains_str(line, "jobset-e2e-")
}

fn select_lines(lines: &Vec<String>, namespaces: bool) -> (r: Vec<String>)
    ensures
        views(r@) == (if namespaces {
            test_namespace_lines(views(lines@))
        } else {
            test_priority_classes(views(lines@))
        }),
{
    let mut kept: Vec<String> = Vec::new();
    let mut i: usize = 0;
    while i < lines.len()
        invariant
            i <= lines@.len(),
            views(kept@) == (if namespaces {
                test_namespace_lines(views(lines@).take(i as int))
            } else {
                test_priority_classes(views(lines@).take(i as int))
            }),
        decreases lines@.len() - i,
    {
        assert(views(lines@).take(i + 1).drop_last() =~= views(lines@).take(i as int));
        assert(views(lines@).take(i + 1).last() == lines@[i as int]@);
        let keep = if namespaces {
            test_namespace_line(lines[i].as_str())
        } else {
            !contains_str(lines[i].as_str(), "system-")
        };
        if keep {
            let ghost before = kept@;
            kept.push(lines[i].clone());
            assert(views(kept@) =~= views(before).push(lines@[i as int]@));
        }
        i += 1;
    }
    assert(views(lines@).take(lines@.len() as int) =~= views(lines@));
    kept
}

fn names_of_lines(lines: &Vec<String>) -> (r: Vec<String>)
    ensures
        views(r@) == names_in(views(lines@)),
{
    let mut names: Vec<String> = Vec::new();
    let mut i: usize = 0;
    while i < lines.len()
        invariant
            i <= lines@.len(),
            views(names@) == names_in(views(lines@).take(i as int)),
        decreases lines@.len() - i,
    {
        assert(views(lines@).take(i + 1).drop_last() =~= views(lines@).take(i as int));
        assert(views(lines@).take(i + 1).last() == lines@[i as int]@);
        let t = trim_blanks(lines[i].as_str());
        if !t.as_str().is_empty() {
            let ghost before = names@;
            names.push(t);
            assert(views(names@) =~= views(before).push(t@));
        }
        i += 1;
    }
    assert(views(lines@).take(lines@.len() as int) =~= views(lines@));
    names
}

/// The arguments that delete one object.
pub open spec fn delete_args(object: Seq<char>) -> Seq<Seq<char>> {
    seq!["delete"@, object]
}

fn delete_each(cmds: &mut Vec<Vec<String>>, objects: &Vec<String>)
    ensures
        command_views(final(cmds)@) == command_views(old(cmds)@) + views(objects@).map_values(|o: Seq<char>| delete_args(o)),
{
    let ghost start = command_views(cmds@);
    let mut i: usize = 0;
    while i < objects.len()
        invariant
            i <= objects@.len(),
            command_views(cmds@) == start + views(objects@).take(i as int).map_values(|o: Seq<char>| delete_args(o)),
        decreases objects@.len() - i,
    {
        let mut c: Vec<String> = Vec::new();
        assert(views(c@) =~= Seq::<Seq<char>>::empty());
        push_str(&mut c, "delete");
        push_str(&mut c, objects[i].as_str());
        assert(views(c@) =~= delete_args(objects@[i as int]@));
        push_cmd(cmds, c);
        assert(views(objects@).take(i + 1).map_values(|o: Seq<char>| delete_args(o)) =~= views(objects@).take(
            i as int,
        ).map_values(|o: Seq<char>| delete_args(o)).push(delete_args(objects@[i as int]@)));
        i += 1;
    }
    assert(views(objects@).take(objects@.len() as int) =~= views(objects@));
}

/// The commands that remove objects picked from a listing, one by one:
/// clear the finalizers of each, then delete each.
pub open spec fn remove_each(picked: Seq<Seq<char>>) -> Seq<Seq<Seq<char>>> {
    if picked.len() == 0 {
        Seq::empty()
    } else {
        patch_all_args(names_in(picked), None) + names_in(picked).map_values(|o: Seq<char>| delete_args(o))
    }
}

fn remove_picked(picked: &Vec<String>) -> (r: Vec<Vec<String>>)
    ensures
        command_views(r@) == remove_each(views(picked@)),
{
    let mut cmds: Vec<Vec<String>> = Vec::new();
    assert(command_views(cmds@) =~= Seq::<Seq<Seq<char>>>::empty());
    if picked.len() == 0 {
        return cmds;
    }
    let names = names_of_lines(picked);
    patch_all(&mut cmds, &names, None);
    delete_each(&mut cmds, &names);
    cmds
}

/// The commands that remove the priority classes that tests created, from
/// the listing of all of them.
pub fn cleanup_priority_classes(listing: &str) -> (r: Vec<Vec<String>>)
    ensures
        command_views(r@) == remove_each(test_priority_classes(lines_of(listing@))),
{
    let lines = split_lines(listing);
    let picked = select_lines(&lines, false);
    remove_picked(&picked)
}

/// The commands that remove the namespaces that tests created, from the
/// listing of all namespaces.
pub fn cleanup_test_namespaces(listing: &str) -> (r: Vec<Vec<String>>)
    ensures
        command_views(r@) == remove_each(test_namespace_lines(lines_of(listing@))),
{
    let lines = split_lines(listing);
    let picked = select_lines(&lines, true);
    remove_picked(&picked)
}

/// The name of a namespace from its listing line, without the kind prefix.
pub open spec fn namespace_name(line: Seq<char>) -> Seq<char> {
    let t = trim(line);
    if t.len() >= 10 && t.subrange(0, 10) == "namespace/"@ {
        t.subrange(10, t.len() as int)
    } else {
        t
    }
}

/// The test namespaces of a listing, by name, empty names left out.
pub open spec fn test_namespace_names(lines: Seq<Seq<char>>) -> Seq<Seq<char>>
    decreases lines.len(),
{
    if lines.len() == 0 {
        Seq::empty()
    } else {
        let before = test_namespace_names(lines.drop_last());
        if is_test_namespace(lines.last()) && namespace_name(lines.last()).len() > 0 {
            before.push(namespace_name(lines.last()))
        } else {
            before
        }
    }
}

fn strip_namespace_prefix(t: &str) -> (r: String)
    ensures
        r@ == (if t@.len() >= 10 && t@.subrange(0, 10) == "namespace/"@ {
            t@.subrange(10, t@.len() as int)
        } else {
            t@
        }),
{
    proof {
        reveal_strlit("namespace/");
    }
    let n = t.unicode_len();
    if n >= 10 {
        let head = t.substring_char(0, 10);
        if crate::text::str_eq(head, "namespace/") {
            return String::from_str(t.substring_char(10, n));
        }
    }
    String::from_str(t)
}

/// The test namespaces in which workloads are to be cleaned.
pub fn test_namespaces(listing: &str) -> (r: Vec<String>)
    ensures
        views(r@) == test_namespace_names(lines_of(listing@)),
{
    let lines = split_lines(listing);
    let mut names: Vec<String> = Vec::new();
    let mut i: usize = 0;
    while i < lines.len()
        invariant
            views(lines@) == lines_of(listing@),
            i <= lines@.len(),
            views(names@) == test_namespace_names(views(lines@).take(i as int)),
        decreases lines@.len() - i,
    {
        assert(views(lines@).take(i + 1).drop_last() =~= views(lines@).take(i as int));
        assert(views(lines@).take(i + 1).last() == lines@[i as int]@);
        if test_namespace_line(lines[i].as_str()) {
            let t = trim_blanks(lines[i].as_str());
            let name = strip_namespace_prefix(t.as_str());
            if !name.as_str().is_empty() {
                let ghost before = names@;
                names.push(name);
                assert(views(names@) =~= views(before).push(name@));
            }
        }
        i += 1;
    }
    assert(views(lines@).take(lines@.len() as int) =~= views(lines@));
    names
}

/// The commands that clean the workloads of one test namespace, from the
/// listing of its workloads: clear each one's finalizers, then delete them all.
pub fn cleanup_test_workloads(namespace: &str, workloads: &str) -> (r: Vec<Vec<String>>)
    ensures
        command_views(r@) == patch_all_args(names_in(lines_of(workloads@)), Some(namespace@))
            + seq![seq!["delete"@, "workloads"@, "-n"@, namespace@, "--all"@]],
{
    let mut cmds: Vec<Vec<String>> = Vec::new();
    assert(command_views(cmds@) =~= Seq::<Seq<Seq<char>>>::empty());
    let names = parse_cluster_list(workloads);
    patch_all(&mut cmds, &names, Some(namespace));
    let mut d: Vec<String> = Vec::new();
    assert(views(d@) =~= Seq::<Seq<char>>::empty());
    push_str(&mut d, "delete");
    push_str(&mut d, "workloads");
    push_str(&mut d, "-n");
    push_str(&mut d, namespace);
    push_str(&mut d, "--all");
    assert(views(d@) =~= seq!["delete"@, "workloads"@, "-n"@, namespace@, "--all"@]);
    push_cmd(&mut cmds, d);
    assert(command_views(cmds@) =~= patch_all_args(names_in(lines_of(workloads@)), Some(namespace@))
        + seq![seq!["delete"@, "workloads"@, "-n"@, namespace@, "--all"@]]);
    cmds
}

/// One stage of the cleanup, in the order they run.
#[derive(Debug, Clone, Copy, PartialEq, Eq, Structural)]
pub enum CleanupStage {
    PriorityClasses,
    /// The cluster-wide kind of this index in the list of test kinds.
    ClusterResources(usize),
    TestWorkloads,
    TestNamespaces,
}

/// The stages of a cleanup, in order.
pub open spec fn cleanup_stages() -> Seq<CleanupStage> {
    seq![
        CleanupStage::PriorityClasses,
        CleanupStage::ClusterResources(0),
        CleanupStage::ClusterResources(1),
        CleanupStage::ClusterResources(2),
        CleanupStage::ClusterResources(3),
        CleanupStage::ClusterResources(4),
        CleanupStage::TestWorkloads,
        CleanupStage::TestNamespaces,
    ]
}

/// The stages of a cleanup: priority classes first, then the cluster-wide
/// kinds, then the workloads of test namespaces, and the namespaces last.
pub fn cleanup() -> (r: Vec<CleanupStage>)
    ensures
        r@ == cleanup_stages(),
{
    let v = vec![
        CleanupStage::PriorityClasses,
        CleanupStage::ClusterResources(0),
        CleanupStage::ClusterResources(1),
        CleanupStage::ClusterResources(2),
        CleanupStage::ClusterResources(3),
        CleanupStage::ClusterResources(4),
        CleanupStage::TestWorkloads,
        CleanupStage::TestNamespaces,
    ];
    assert(v@ =~= cleanup_stages());
    v
}

} // verus!
