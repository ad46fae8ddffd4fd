//! Recognition of the project's root directory, and the rule that keeps
//! repository operations inside it.

use vstd::prelude::*;
use vstd::string::*;
use crate::text::same_text;

verus! {

/// Which marker entries a directory holds.
pub struct RootMarkers {
    /// The project's launch script.
    pub launch_script: bool,
    /// The desktop client's source tree.
    pub client_tree: bool,
    /// A top-level readme.
    pub readme: bool,
    /// The services directory.
    pub services: bool,
}

/// Whether a directory with these markers is the project root: it holds the
/// launch script, or the client's source tree, or both a readme and the
/// services directory.
pub fn is_project_root(markers: &RootMarkers) -> (r: bool)
    ensures
        r == (markers.launch_script || markers.client_tree || (markers.readme && markers.services)),
{
    markers.launch_script || markers.client_tree || (markers.readme && markers.services)
}

/// Whether `s` begins with `prefix`.
pub open spec fn starts_with(s: Seq<char>, prefix: Seq<char>) -> bool {
    prefix.len() <= s.len() && s.subrange(0, prefix.len() as int) == prefix
}

/// `s` with every backslash turned into a forward slash.
pub open spec fn forward_slashes(s: Seq<char>) -> Seq<char> {
    s.map_values(|c: char| if c == '\\' { '/' } else { c })
}

fn begins_with(s: &str, prefix: &str) -> (r: bool)
    ensures
        r == starts_with(s@, prefix@),
{
    let n = prefix.unicode_len();
    if n > s.unicode_len() {
        return false;
    }
    same_text(s.substring_char(0, n), prefix)
}

fn with_forward_slashes(s: &str) -> (r: String)
    ensures
        r@ == forward_slashes(s@),
{
    let n = s.unicode_len();
    let mut r = String::new();
    let mut i: usize = 0;
    proof {
        reveal_strlit("/");
    }
    while i < n
        invariant
            n == s@.len(),
            i <= n,
            r@ == forward_slashes(s@.subrange(0, i as int)),
            "/"@ == seq!['/'],
        decreases n - i,
    {
        let ghost before = r@;
        if s.get_char(i) == '\\' {
            r.append("/");
        } else {
            r.append(s.substring_char(i, i + 1));
        }
        assert(forward_slashes(s@.subrange(0, i + 1)) =~= forward_slashes(s@.subrange(0, i as int)).push(
            if s@[i as int] == '\\' { '/' } else { s@[i as int] },
        ));
        assert(r@ =~= forward_slashes(s@.subrange(0, i + 1)));
        i = i + 1;
    }
    assert(s@.subrange(0, n as int) =~= s@);
    r
}

/// Whether a repository path lies inside the project: it begins with the
/// project root as written, or as written with forward slashes.
pub fn repo_path_allowed(repo_path: &str, project_root: &str) -> (r: bool)
    ensures
        r == (starts_with(repo_path@, project_root@) || starts_with(
            repo_path@,
            forward_slashes(project_root@),
        )),
{
    if begins_with(repo_path, project_root) {
        return true;
    }
    let alt = with_forward_slashes(project_root);
    begins_with(repo_path, alt.as_str())
}

} // verus!
