//! The images that can be built from the operator's source.
use vstd::prelude::*;
use crate::text::str_eq;
use crate::text::views;

verus! {

/// The names of the components that can be built.
pub open spec fn valid_component_names() -> Seq<Seq<char>> {
    seq!["operator"@, "operand"@, "must-gather"@, "bundle"@]
}

/// The components that can be built, in order.
pub fn valid_components() -> (r: Vec<&'static str>)
    ensures
        r@.len() == 4,
        forall|i: int| 0 <= i < 4 ==> (#[trigger] r@[i])@ == valid_component_names()[i],
{
    let v = vec!["operator", "operand", "must-gather", "bundle"];
    v
}

/// The message for a component that cannot be built.
pub open spec fn invalid_component_message(c: Seq<char>) -> Seq<char> {
    "Invalid component '"@ + c + "'. Valid components are: operator, operand, must-gather, bundle"@
}

fn is_valid_component(c: &str) -> (r: bool)
    ensures
        r == valid_component_names().contains(c@),
{
    let r = str_eq(c, "operator") || str_eq(c, "operand") || str_eq(c, "must-gather") || str_eq(c, "bundle");
    proof {
        if valid_component_names().contains(c@) {
            let i = choose|i: int| 0 <= i < 4 && valid_component_names()[i] == c@;
            assert(i == 0 || i == 1 || i == 2 || i == 3);
        }
        if r {
            if c@ == "operator"@ {
                assert(valid_component_names()[0] == c@);
            } else if c@ == "operand"@ {
                assert(valid_component_names()[1] == c@);
            } else if c@ == "must-gather"@ {
                assert(valid_component_names()[2] == c@);
            } else {
                assert(valid_component_names()[3] == c@);
            }
        }
    }
    r
}

/// The components to build: all of them when none is named; otherwise the
/// ones named, which must all be valid, else the first invalid one is
/// reported.
pub fn select_components(requested: &Vec<String>) -> (r: Result<Vec<String>, String>)
    ensures
        requested@.len() == 0 ==> (r matches Ok(v) && views(v@) == valid_component_names()),
        requested@.len() > 0 && (forall|i: int| 0 <= i < requested@.len() ==> valid_component_names().contains(
            #[trigger] requested@[i]@,
        )) ==> (r matches Ok(v) && views(v@) == views(requested@)),
        r matches Err(m) ==> exists|i: int| 0 <= i < requested@.len() && !valid_component_names().contains(
            #[trigger] requested@[i]@,
        ) && m@ == invalid_component_message(requested@[i]@),
        (exists|i: int| 0 <= i < requested@.len() && !valid_component_names().contains(#[trigger] requested@[i]@))
            ==> r is Err,
{
    if requested.len() == 0 {
        let mut v: Vec<String> = Vec::new();
        v.push(String::from_str("operator"));
        v.push(String::from_str("operand"));
        v.push(String::from_str("must-gather"));
        v.push(String::from_str("bundle"));
        assert(views(v@) =~= valid_component_names());
        return Ok(v);
    }
    let mut out: Vec<String> = Vec::new();
    let mut i: usize = 0;
    while i < requested.len()
        invariant
            i <= requested@.len(),
            out@.len() == i,
            forall|j: int| 0 <= j < i ==> valid_component_names().contains(#[trigger] requested@[j]@),
            forall|j: int| 0 <= j < i ==> (#[trigger] out@[j])@ == requested@[j]@,
        decreases requested@.len() - i,
    {
        if !is_valid_component(requested[i].as_str()) {
            let mut m = String::from_str("Invalid component '");
            m.append(requested[i].as_str());
            m.append("'. Valid components are: operator, operand, must-gather, bundle");
            return Err(m);
        }
        out.push(requested[i].clone());
        i += 1;
    }
    assert(views(out@) =~= views(requested@));
    Ok(out)
}

/// The Dockerfile of a component, relative to the source tree.
pub open spec fn dockerfile_of(c: Seq<char>) -> Option<Seq<char>> {
    if c == "operator"@ {
        Some("Dockerfile"@)
    } else if c == "operand"@ {
        Some("Dockerfile.kueue"@)
    } else if c == "must-gather"@ {
        Some("must-gather/Dockerfile"@)
    } else if c == "bundle"@ {
        Some("bundle.developer.Dockerfile"@)
    } else {
        None
    }
}

/// The Dockerfile of a component.
pub fn dockerfile(component: &str) -> (r: Option<&'static str>)
    ensures
        (match r {
            Some(d) => Some(d@),
            None => None,
        }) == dockerfile_of(component@),
{
    if str_eq(component, "operator") {
        Some("Dockerfile")
    } else if str_eq(component, "operand") {
        Some("Dockerfile.kueue")
    } else if str_eq(component, "must-gather") {
        Some("must-gather/Dockerfile")
    } else if str_eq(component, "bundle") {
        Some("bundle.developer.Dockerfile")
    } else {
        None
    }
}

/// The arguments of the container runtime that build a component: its
/// Dockerfile under `root`, the tag, for the bundle the name of the image
/// list it embeds, and `root` as the context.
pub open spec fn build_args_of(component: Seq<char>, root: Seq<char>, tag: Seq<char>, images_file: Seq<char>) -> Option<Seq<Seq<char>>> {
    match dockerfile_of(component) {
        None => None,
        Some(d) => Some(
            seq!["build"@, "-f"@, root + "/"@ + d, "-t"@, tag] + (if component == "bundle"@ {
                seq!["--build-arg"@, "RELATED_IMAGE_FILE="@ + images_file]
            } else {
                Seq::empty()
            }) + seq![root],
        ),
    }
}

fn push_owned(v: &mut Vec<String>, s: &str)
    ensures
        views(final(v)@) == views(old(v)@).push(s@),
{
    let ghost before = v@;
    v.push(String::from_str(s));
    assert(views(v@) =~= views(before).push(s@));
}

/// The arguments that build a component, or none for an unknown one.
pub fn build_args(component: &str, root: &str, tag: &str, images_file: &str) -> (r: Option<Vec<String>>)
    ensures
        (match r {
            Some(v) => Some(views(v@)),
            None => None,
        }) == build_args_of(component@, root@, tag@, images_file@),
{
    proof {
        reveal_strlit("bundle");
    }
    let d = match dockerfile(component) {
        None => return None,
        Some(d) => d,
    };
    let mut v: Vec<String> = Vec::new();
    assert(views(v@) =~= Seq::<Seq<char>>::empty());
    push_owned(&mut v, "build");
    push_owned(&mut v, "-f");
    let mut path = String::from_str(root);
    path.append("/");
    path.append(d);
    push_owned(&mut v, path.as_str());
    push_owned(&mut v, "-t");
    push_owned(&mut v, tag);
    if str_eq(component, "bundle") {
        push_owned(&mut v, "--build-arg");
        let mut a = String::from_str("RELATED_IMAGE_FILE=");
        a.append(images_file);
        push_owned(&mut v, a.as_str());
    }
    push_owned(&mut v, root);
    Some(v)
}

/// The message of a component that failed to build.
pub fn build_failure(component: &str, message: &str) -> (r: String)
    ensures
        r@ == "Failed to build "@ + component@ + ": "@ + message@,
{
    let mut s = String::from_str("Failed to build ");
    s.append(component);
    s.append(": ");
    s.append(message);
    s
}

} // verus!
