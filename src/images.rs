//! The images a deployment uses, by name: operator, operand, must-gather and
//! bundle. Reading them from their file is left to the program around the
//! library.
use vstd::prelude::*;
use crate::text::str_eq;

verus! {

/// One named image.
pub struct RelatedImage {
    pub name: String,
    pub image: String,
}

/// The images by name; where a name comes twice, the later entry counts.
pub struct ImageConfig {
    pub images: Vec<RelatedImage>,
}

/// The map from name to image that a list of entries gives, later entries
/// winning.
pub open spec fn image_map(entries: Seq<RelatedImage>) -> Map<Seq<char>, Seq<char>>
    decreases entries.len(),
{
    if entries.len() == 0 {
        Map::empty()
    } else {
        image_map(entries.drop_last()).insert(entries.last().name@, entries.last().image@)
    }
}

/// The message for a name that has no image.
pub open spec fn missing_image_message(name: Seq<char>) -> Seq<char> {
    "Image '"@ + name + "' not found in configuration"@
}

/// Entries from `i` on do not carry `k`: the map agrees with that of the
/// entries before `i` on `k`.
proof fn lemma_map_without_suffix(entries: Seq<RelatedImage>, i: int, k: Seq<char>)
    requires
        0 <= i <= entries.len(),
        forall|j: int| i <= j < entries.len() ==> (#[trigger] entries[j]).name@ != k,
    ensures
        image_map(entries).contains_key(k) == image_map(entries.take(i)).contains_key(k),
        image_map(entries).contains_key(k) ==> image_map(entries)[k] == image_map(entries.take(i))[k],
    decreases entries.len(),
{
    if entries.len() > i {
        let d = entries.drop_last();
        assert(d.take(i) =~= entries.take(i));
        assert forall|j: int| i <= j < d.len() implies (#[trigger] d[j]).name@ != k by {
            assert(d[j] == entries[j]);
        }
        lemma_map_without_suffix(d, i, k);
    } else {
        assert(entries.take(i) =~= entries);
    }
}

impl ImageConfig {
    /// The map from name to image.
    pub open spec fn view(&self) -> Map<Seq<char>, Seq<char>> {
        image_map(self.images@)
    }

    /// The configuration of a list of entries.
    pub fn from_images(images: Vec<RelatedImage>) -> (r: Self)
        ensures
            r.view() == image_map(images@),
    {
        ImageConfig { images }
    }

    /// The image of `name`.
    pub fn get(&self, name: &str) -> (r: Result<&str, String>)
        ensures
            r is Ok <==> self.view().contains_key(name@),
            r matches Ok(s) ==> s@ == self.view()[name@],
            r matches Err(m) ==> m@ == missing_image_message(name@),
    {
        let mut i: usize = self.images.len();
        while i > 0
            invariant
                i <= self.images@.len(),
                forall|j: int| i <= j < self.images@.len() ==> (#[trigger] self.images@[j]).name@ != name@,
            decreases i,
        {
            i -= 1;
            if str_eq(self.images[i].name.as_str(), name) {
                proof {
                    let e = self.images@;
                    assert forall|j: int| i + 1 <= j < e.len() implies (#[trigger] e[j]).name@ != name@ by {}
                    lemma_map_without_suffix(e, i + 1, name@);
                    let t = e.take(i + 1);
                    assert(t.drop_last() =~= e.take(i as int));
                    assert(t.last() == e[i as int]);
                }
                return Ok(self.images[i].image.as_str());
            }
        }
        proof {
            lemma_map_without_suffix(self.images@, 0, name@);
            assert(self.images@.take(0) =~= Seq::<RelatedImage>::empty());
        }
        let mut m = String::from_str("Image '");
        m.append(name);
        m.append("' not found in configuration");
        Err(m)
    }

    /// The operator's image.
    pub fn operator(&self) -> (r: Result<&str, String>)
        ensures
            r is Ok <==> self.view().contains_key("operator"@),
            r matches Ok(s) ==> s@ == self.view()["operator"@],
            r matches Err(m) ==> m@ == missing_image_message("operator"@),
    {
        self.get("operator")
    }

    /// The operand's image.
    pub fn operand(&self) -> (r: Result<&str, String>)
        ensures
            r is Ok <==> self.view().contains_key("operand"@),
            r matches Ok(s) ==> s@ == self.view()["operand"@],
            r matches Err(m) ==> m@ == missing_image_message("operand"@),
    {
        self.get("operand")
    }

    /// The must-gather image.
    pub fn must_gather(&self) -> (r: Result<&str, String>)
        ensures
            r is Ok <==> self.view().contains_key("must-gather"@),
            r matches Ok(s) ==> s@ == self.view()["must-gather"@],
            r matches Err(m) ==> m@ == missing_image_message("must-gather"@),
    {
        self.get("must-gather")
    }

    /// The operator bundle's image.
    pub fn bundle(&self) -> (r: Result<&str, String>)
        ensures
            r is Ok <==> self.view().contains_key("bundle"@),
            r matches Ok(s) ==> s@ == self.view()["bundle"@],
            r matches Err(m) ==> m@ == missing_image_message("bundle"@),
    {
        self.get("bundle")
    }

    /// Each name with its image, once each.
    pub fn list(&self) -> (r: Vec<(String, String)>)
        ensures
            forall|i: int| 0 <= i < r@.len() ==> self.view().contains_key((#[trigger] r@[i]).0@)
                && self.view()[r@[i].0@] == r@[i].1@,
            forall|k: Seq<char>| self.view().contains_key(k) ==> exists|i: int| 0 <= i < r@.len() && (#[trigger] r@[i]).0@ == k,
            forall|i: int, j: int| 0 <= i < j < r@.len() ==> (#[trigger] r@[i]).0@ != (#[trigger] r@[j]).0@,
    {
        let mut out: Vec<(String, String)> = Vec::new();
        let mut i: usize = 0;
        let ghost e = self.images@;
        while i < self.images.len()
            invariant
                e == self.images@,
                i <= e.len(),
                forall|x: int| 0 <= x < out@.len() ==> self.view().contains_key((#[trigger] out@[x]).0@)
                    && self.view()[out@[x].0@] == out@[x].1@,
                forall|x: int| 0 <= x < out@.len() ==> from_last_entry(e, (#[trigger] out@[x]).0@, i as int),
                forall|y: int| 0 <= y < i && #[trigger] is_last(e, y) ==> exists|x: int| 0 <= x < out@.len()
                    && out@[x].0@ == e[y].name@,
                forall|x: int, w: int| 0 <= x < w < out@.len() ==> (#[trigger] out@[x]).0@ != (#[trigger] out@[w]).0@,
            decreases e.len() - i,
        {
            let mut later = false;
            let mut j: usize = i + 1;
            while j < self.images.len()
                invariant
                    e == self.images@,
                    i < e.len(),
                    i + 1 <= j <= e.len(),
                    !later ==> forall|z: int| i < z < j ==> (#[trigger] e[z]).name@ != e[i as int].name@,
                    later ==> exists|z: int| i < z < e.len() && (#[trigger] e[z]).name@ == e[i as int].name@,
                decreases e.len() - j,
            {
                if !later && str_eq(self.images[j].name.as_str(), self.images[i].name.as_str()) {
                    later = true;
                }
                j += 1;
            }
            if !later {
                proof {
                    assert(is_last(e, i as int));
                    assert forall|x: int| 0 <= x < out@.len() implies (#[trigger] out@[x]).0@ != e[i as int].name@ by {
                        assert(from_last_entry(e, out@[x].0@, i as int));
                        let y = choose|y: int| 0 <= y < i && #[trigger] is_last(e, y) && out@[x].0@ == e[y].name@;
                        assert(e[i as int].name@ != e[y].name@);
                    }
                    lemma_map_without_suffix(e, i + 1, e[i as int].name@);
                    let t = e.take(i + 1);
                    assert(t.drop_last() =~= e.take(i as int));
                    assert(t.last() == e[i as int]);
                }
                let ghost before = out@;
                out.push((self.images[i].name.clone(), self.images[i].image.clone()));
                proof {
                    assert forall|x: int| 0 <= x < out@.len() implies from_last_entry(e, (#[trigger] out@[x]).0@, i + 1) by {
                        if x < before.len() {
                            assert(out@[x] == before[x]);
                            assert(from_last_entry(e, before[x].0@, i as int));
                            let y = choose|y: int| 0 <= y < i && #[trigger] is_last(e, y) && before[x].0@ == e[y].name@;
                            assert(0 <= y < i + 1 && is_last(e, y) && out@[x].0@ == e[y].name@);
                        } else {
                            assert(is_last(e, i as int) && out@[x].0@ == e[i as int].name@);
                        }
                    }
                    assert forall|y: int| 0 <= y < i + 1 && #[trigger] is_last(e, y) implies exists|x: int| 0 <= x < out@.len()
                        && out@[x].0@ == e[y].name@ by {
                        if y < i {
                            let x = choose|x: int| 0 <= x < before.len() && before[x].0@ == e[y].name@;
                            assert(out@[x] == before[x]);
                        } else {
                            assert(out@[before.len() as int].0@ == e[y].name@);
                        }
                    }
                }
            } else {
                proof {
                    assert(!is_last(e, i as int));
                }
            }
            i += 1;
        }
        proof {
            assert forall|k: Seq<char>| self.view().contains_key(k) implies exists|x: int| 0 <= x < out@.len() && (#[trigger] out@[x]).0@ == k by {
                lemma_key_has_last_entry(e, k);
                let y = choose|y: int| 0 <= y < e.len() && (#[trigger] e[y]).name@ == k
                    && forall|z: int| y < z < e.len() ==> (#[trigger] e[z]).name@ != k;
                assert(is_last(e, y));
            }
        }
        out
    }
}

/// No entry after `y` repeats its name.
pub open spec fn is_last(e: Seq<RelatedImage>, y: int) -> bool {
    forall|z: int| y < z < e.len() ==> (#[trigger] e[z]).name@ != e[y].name@
}

/// `k` is the name of an entry before `i` that no later entry repeats.
pub open spec fn from_last_entry(e: Seq<RelatedImage>, k: Seq<char>, i: int) -> bool {
    exists|y: int| 0 <= y < i && #[trigger] is_last(e, y) && k == e[y].name@
}

/// A key of the map is the name of some entry that no later entry repeats.
proof fn lemma_key_has_last_entry(entries: Seq<RelatedImage>, k: Seq<char>)
    requires
        image_map(entries).contains_key(k),
    ensures
        exists|y: int| 0 <= y < entries.len() && (#[trigger] entries[y]).name@ == k
            && forall|z: int| y < z < entries.len() ==> (#[trigger] entries[z]).name@ != k,
    decreases entries.len(),
{
    let n = entries.len() as int;
    if entries.last().name@ == k {
        assert(entries[n - 1].name@ == k);
    } else {
        let d = entries.drop_last();
        lemma_key_has_last_entry(d, k);
        let y = choose|y: int| 0 <= y < d.len() && (#[trigger] d[y]).name@ == k
            && forall|z: int| y < z < d.len() ==> (#[trigger] d[z]).name@ != k;
        assert(entries[y] == d[y]);
        assert forall|z: int| y < z < entries.len() implies (#[trigger] entries[z]).name@ != k by {
            if z < n - 1 {
                assert(entries[z] == d[z]);
            }
        }
    }
}

} // verus!
