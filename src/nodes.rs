//! Labelling the worker nodes for the tests: the first worker, by name,
//! runs on-demand instances and the others spot instances.
use vstd::prelude::*;
use vstd::seq_lib::{to_multiset_build, to_multiset_insert};
use crate::text::str_eq;
use crate::text::{lines_of, split_lines, trim, trim_blanks, views};

verus! {

/// `a` comes before `b` or equals it, character by character.
pub open spec fn lex_le(a: Seq<char>, b: Seq<char>) -> bool
    decreases a.len(),
{
    if a.len() == 0 {
        true
    } else if b.len() == 0 {
        false
    } else if (a[0] as u32) != (b[0] as u32) {
        (a[0] as u32) < (b[0] as u32)
    } else {
        lex_le(a.drop_first(), b.drop_first())
    }
}

/// Of two strings, one comes first.
proof fn lemma_lex_total(a: Seq<char>, b: Seq<char>)
    ensures
        lex_le(a, b) || lex_le(b, a),
    decreases a.len(),
{
    if a.len() > 0 && b.len() > 0 && (a[0] as u32) == (b[0] as u32) {
        lemma_lex_total(a.drop_first(), b.drop_first());
    }
}

/// Whether `a` comes before `b` or equals it.
pub fn str_le(a: &str, b: &str) -> (r: bool)
    ensures
        r == lex_le(a@, b@),
{
    let n = a.unicode_len();
    let m = b.unicode_len();
    let mut i: usize = 0;
    assert(a@.skip(0) =~= a@ && b@.skip(0) =~= b@);
    while i < n && i < m
        invariant
            n == a@.len(),
            m == b@.len(),
            i <= n,
            i <= m,
            lex_le(a@, b@) == lex_le(a@.skip(i as int), b@.skip(i as int)),
        decreases n - i,
    {
        let x = a.get_char(i);
        let y = b.get_char(i);
        assert(a@.skip(i as int)[0] == x && b@.skip(i as int)[0] == y);
        if (x as u32) != (y as u32) {
            return (x as u32) < (y as u32);
        }
        assert(a@.skip(i as int).drop_first() =~= a@.skip(i + 1));
        assert(b@.skip(i as int).drop_first() =~= b@.skip(i + 1));
        i += 1;
    }
    if i == n {
        assert(a@.skip(i as int).len() == 0);
        true
    } else {
        assert(b@.skip(i as int).len() == 0);
        false
    }
}

/// The names are in order.
pub open spec fn sorted(s: Seq<Seq<char>>) -> bool {
    forall|i: int| 0 <= i < s.len() - 1 ==> lex_le(#[trigger] s[i], s[i + 1])
}

/// Sorts names in place.
pub fn sort_names(v: &mut Vec<String>)
    ensures
        sorted(views(final(v)@)),
        views(final(v)@).to_multiset() == views(old(v)@).to_multiset(),
{
    let ghost orig = views(v@);
    let mut out: Vec<String> = Vec::new();
    let mut i: usize = 0;
    let n = v.len();
    assert(views(out@) =~= Seq::<Seq<char>>::empty());
    assert(orig.take(0) =~= Seq::<Seq<char>>::empty());
    while i < n
        invariant
            n == v@.len(),
            orig == views(v@),
            i <= n,
            sorted(views(out@)),
            views(out@).to_multiset() == orig.take(i as int).to_multiset(),
        decreases n - i,
    {
        let x = v[i].clone();
        let mut pos: usize = 0;
        while pos < out.len() && !str_le(x.as_str(), out[pos].as_str())
            invariant
                pos <= out@.len(),
                forall|j: int| 0 <= j < pos ==> !lex_le(x@, #[trigger] out@[j]@),
            decreases out@.len() - pos,
        {
            pos += 1;
        }
        let ghost before = views(out@);
        out.insert(pos, x);
        proof {
            assert(views(out@) =~= before.insert(pos as int, x@));
            assert(orig.take(i + 1) =~= orig.take(i as int).push(orig[i as int]));
            assert(x@ == orig[i as int]);
            to_multiset_insert(before, pos as int, x@);
            to_multiset_build(orig.take(i as int), orig[i as int]);
            if pos > 0 {
                lemma_lex_total(x@, before[pos - 1]);
            }
            assert forall|j: int| 0 <= j < views(out@).len() - 1 implies lex_le(#[trigger] views(out@)[j], views(out@)[j + 1]) by {
                if j + 1 < pos {
                    assert(views(out@)[j] == before[j] && views(out@)[j + 1] == before[j + 1]);
                } else if j + 1 == pos {
                    assert(views(out@)[j] == before[j]);
                } else if j == pos {
                } else {
                    assert(views(out@)[j] == before[j - 1] && views(out@)[j + 1] == before[j]);
                }
            }
        }
        i += 1;
    }
    assert(orig.take(n as int) =~= orig);
    *v = out;
}

/// The name of a node from its listing line, without the kind prefix.
pub open spec fn node_name(line: Seq<char>) -> Seq<char> {
    let t = trim(line);
    if t.len() >= 5 && t.subrange(0, 5) == "node/"@ {
        t.subrange(5, t.len() as int)
    } else {
        t
    }
}

fn strip_node_prefix(line: &str) -> (r: String)
    ensures
        r@ == node_name(line@),
{
    proof {
        reveal_strlit("node/");
    }
    let t = trim_blanks(line);
    let n = t.as_str().unicode_len();
    if n >= 5 {
        let head = t.as_str().substring_char(0, 5);
        if str_eq(head, "node/") {
            return String::from_str(t.as_str().substring_char(5, n));
        }
    }
    t
}

/// The names of the nodes of a listing.
pub open spec fn node_names(lines: Seq<Seq<char>>) -> Seq<Seq<char>> {
    lines.map_values(|l: Seq<char>| node_name(l))
}

/// The nodes of `all` that are not control-plane nodes, in listing order.
pub open spec fn workers_of(all: Seq<Seq<char>>, control_plane: Seq<Seq<char>>) -> Seq<Seq<char>>
    decreases all.len(),
{
    if all.len() == 0 {
        Seq::empty()
    } else if node_names(control_plane).contains(node_name(all.last())) {
        workers_of(all.drop_last(), control_plane)
    } else {
        workers_of(all.drop_last(), control_plane).push(node_name(all.last()))
    }
}

fn names_of(listing: &str) -> (r: Vec<String>)
    ensures
        views(r@) == node_names(lines_of(listing@)),
{
    let lines = split_lines(listing);
    let mut out: Vec<String> = Vec::new();
    let mut i: usize = 0;
    while i < lines.len()
        invariant
            views(lines@) == lines_of(listing@),
            i <= lines@.len(),
            views(out@) == node_names(views(lines@).take(i as int)),
        decreases lines@.len() - i,
    {
        let name = strip_node_prefix(lines[i].as_str());
        let ghost before = views(out@);
        out.push(name);
        assert(views(lines@).take(i + 1) =~= views(lines@).take(i as int).push(lines@[i as int]@));
        assert(node_names(views(lines@).take(i + 1)) =~= node_names(views(lines@).take(i as int)).push(
            node_name(lines@[i as int]@),
        ));
        assert(views(out@) =~= before.push(name@));
        i += 1;
    }
    assert(views(lines@).take(lines@.len() as int) =~= views(lines@));
    out
}

fn listed_in(names: &Vec<String>, name: &str) -> (r: bool)
    ensures
        r == views(names@).contains(name@),
{
    let mut i: usize = 0;
    while i < names.len()
        invariant
            i <= names@.len(),
            forall|j: int| 0 <= j < i ==> names@[j]@ != name@,
        decreases names@.len() - i,
    {
        if str_eq(names[i].as_str(), name) {
            assert(views(names@)[i as int] == name@);
            return true;
        }
        i += 1;
    }
    assert forall|j: int| 0 <= j < views(names@).len() implies views(names@)[j] != name@ by {
        assert(views(names@)[j] == names@[j]@);
    }
    false
}

/// The label of the worker at `index` in name order.
pub open spec fn instance_label(index: int) -> Seq<char> {
    if index == 0 {
        "instance-type=on-demand"@
    } else {
        "instance-type=spot"@
    }
}

/// The labels to set: from the listing of all nodes and that of the
/// control-plane nodes, each worker with its label, workers sorted by name.
pub fn label_worker_nodes(all_nodes: &str, control_plane_nodes: &str) -> (r: Vec<(String, String)>)
    ensures
        sorted(r@.map_values(|p: (String, String)| p.0@)),
        r@.map_values(|p: (String, String)| p.0@).to_multiset() == workers_of(
            lines_of(all_nodes@),
            lines_of(control_plane_nodes@),
        ).to_multiset(),
        forall|i: int| 0 <= i < r@.len() ==> (#[trigger] r@[i]).1@ == instance_label(i),
{
    let all = names_of(all_nodes);
    let cp = names_of(control_plane_nodes);
    let mut workers: Vec<String> = Vec::new();
    let mut i: usize = 0;
    let ghost all_lines = lines_of(all_nodes@);
    let ghost cp_lines = lines_of(control_plane_nodes@);
    assert(views(all@).len() == all_lines.len());
    while i < all.len()
        invariant
            all@.len() == all_lines.len(),
            views(all@) == node_names(all_lines),
            views(cp@) == node_names(cp_lines),
            i <= all@.len(),
            views(workers@) == workers_of(all_lines.take(i as int), cp_lines),
        decreases all@.len() - i,
    {
        assert(all_lines.take(i + 1).drop_last() =~= all_lines.take(i as int));
        assert(node_name(all_lines.take(i + 1).last()) == views(all@)[i as int]);
        if !listed_in(&cp, all[i].as_str()) {
            let ghost before = views(workers@);
            workers.push(all[i].clone());
            assert(views(workers@) =~= before.push(all@[i as int]@));
        }
        i += 1;
    }
    assert(all_lines.take(all@.len() as int) =~= all_lines);
    sort_names(&mut workers);
    let mut out: Vec<(String, String)> = Vec::new();
    let mut k: usize = 0;
    while k < workers.len()
        invariant
            k <= workers@.len(),
            out@.len() == k,
            forall|j: int| 0 <= j < k ==> (#[trigger] out@[j]).0@ == workers@[j]@ && out@[j].1@ == instance_label(j),
        decreases workers@.len() - k,
    {
        let label = if k == 0 {
            String::from_str("instance-type=on-demand")
        } else {
            String::from_str("instance-type=spot")
        };
        out.push((workers[k].clone(), label));
        k += 1;
    }
    assert(out@.map_values(|p: (String, String)| p.0@) =~= views(workers@));
    out
}

} // verus!
