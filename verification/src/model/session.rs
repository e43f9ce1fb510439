//! Session-open decisions that depend on what the server advertises.

use vstd::prelude::*;
use crate::json::str_eq;

verus! {

/// The capability a server advertises when `session/open` may carry a
/// working directory.
pub open spec fn session_workspace_cwd_feature() -> Seq<char> {
    "session.workspace_cwd.v1"@
}

/// Whether `session/open` may carry a `cwd`: only when the server lists
/// the workspace-cwd feature among its supported features.
pub fn session_open_may_include_cwd(supported_features: &[String]) -> (r: bool)
    ensures
        r == exists|i: int| 0 <= i < supported_features@.len()
            && (#[trigger] supported_features@[i])@ == session_workspace_cwd_feature(),
{
    proof { reveal_strlit("session.workspace_cwd.v1"); }
    let mut i: usize = 0;
    while i < supported_features.len()
        invariant
            i <= supported_features@.len(),
            forall|k: int| 0 <= k < i ==> (#[trigger] supported_features@[k])@ != session_workspace_cwd_feature(),
        decreases supported_features@.len() - i,
    {
        proof { reveal_strlit("session.workspace_cwd.v1"); }
        if str_eq(supported_features[i].as_str(), "session.workspace_cwd.v1") {
            return true;
        }
        i += 1;
    }
    false
}

/// The workspace root to show: the server's, else the directory the
/// client asked for.
pub fn effective_workspace_root_for_display<'a>(
    server_workspace_root: Option<&'a str>,
    requested_cwd: Option<&'a str>,
) -> (r: Option<&'a str>)
    ensures
        r == (match server_workspace_root {
            Some(s) => Some(s),
            None => requested_cwd,
        }),
{
    match server_workspace_root {
        Some(s) => Some(s),
        None => requested_cwd,
    }
}

} // verus!
