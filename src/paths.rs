//! Where the operator's source tree is, passed explicitly rather than read
//! from the process's working directory.
use vstd::prelude::*;

verus! {

/// The operator's source path: the command line's, else the settings'.
pub fn get_operator_source_path(cli: Option<&str>, configured: Option<&str>) -> (r: Option<String>)
    ensures
        cli matches Some(c) ==> (r matches Some(x) && x@ == c@),
        cli is None ==> (configured matches Some(c) ==> (r matches Some(x) && x@ == c@)),
        cli is None && configured is None ==> r is None,
{
    match cli {
        Some(c) => Some(String::from_str(c)),
        None => match configured {
            Some(c) => Some(String::from_str(c)),
            None => None,
        },
    }
}

/// `relative` under `root`, with one separator between them.
pub open spec fn joined_path(root: Seq<char>, relative: Seq<char>) -> Seq<char> {
    if root.len() > 0 && root.last() == '/' {
        root + relative
    } else {
        root + "/"@ + relative
    }
}

/// The path of `relative` inside the source tree at `root`.
pub fn operator_source_path(root: &str, relative: &str) -> (r: String)
    ensures
        r@ == joined_path(root@, relative@),
{
    let n = root.unicode_len();
    let mut s = String::from_str(root);
    if n > 0 && root.get_char(n - 1) == '/' {
        s.append(relative);
    } else {
        s.append("/");
        s.append(relative);
    }
    s
}

/// The message when the source tree is not configured.
pub open spec fn source_not_configured_message() -> Seq<char> {
    "Kueue-operator source path is not configured.\nPlease set kueue_operator_source_path in your .kueue-dev.toml configuration file."@
}

/// Checks the configured source tree: it must be set, exist, and be a directory.
pub fn ensure_operator_source_directory(path: Option<&str>, exists: bool, is_dir: bool) -> (r: Result<String, String>)
    ensures
        path is None ==> (r matches Err(m) && m@ == source_not_configured_message()),
        path matches Some(p) ==> (if !exists {
            r matches Err(m) && m@ == "Kueue-operator source path does not exist: "@ + p@
        } else if !is_dir {
            r matches Err(m) && m@ == "Kueue-operator source path is not a directory: "@ + p@
        } else {
            r matches Ok(x) && x@ == p@
        }),
{
    match path {
        None => Err(
            String::from_str(
                "Kueue-operator source path is not configured.\nPlease set kueue_operator_source_path in your .kueue-dev.toml configuration file.",
            ),
        ),
        Some(p) => if !exists {
            let mut m = String::from_str("Kueue-operator source path does not exist: ");
            m.append(p);
            Err(m)
        } else if !is_dir {
            let mut m = String::from_str("Kueue-operator source path is not a directory: ");
            m.append(p);
            Err(m)
        } else {
            Ok(String::from_str(p))
        },
    }
}

} // verus!
