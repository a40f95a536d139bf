//! Workspace paths, held as strings and joined as `PathBuf::join` joins
//! them on Unix.

use vstd::prelude::*;

use crate::text::{concat2, concat3, owned};

verus! {

/// The directory under a workspace that holds its control-plane state.
pub const CONTROL_DIR: &'static str = ".claw/control";

/// `base` joined with `part`: an absolute `part` replaces `base`; otherwise
/// a `/` goes between them unless `base` is empty or already ends with one.
pub open spec fn join_path(base: Seq<char>, part: Seq<char>) -> Seq<char> {
    if part.len() > 0 && part[0] == '/' {
        part
    } else if base.len() == 0 || base.last() == '/' {
        base + part
    } else {
        base + seq!['/'] + part
    }
}

/// `base` joined with `part`.
pub fn join(base: &str, part: &str) -> (r: String)
    ensures
        r@ == join_path(base@, part@),
{
    proof {
        reveal_strlit("/");
    }
    if part.unicode_len() > 0 && part.get_char(0) == '/' {
        owned(part)
    } else if base.unicode_len() == 0 || base.get_char(base.unicode_len() - 1) == '/' {
        concat2(base, part)
    } else {
        concat3(base, "/", part)
    }
}

/// The control-plane directory of a workspace.
pub open spec fn control_root_spec(root: Seq<char>) -> Seq<char> {
    join_path(root, CONTROL_DIR@)
}

/// The control-plane directory of a workspace.
pub fn control_root_for(workspace_root: &str) -> (r: String)
    ensures
        r@ == control_root_spec(workspace_root@),
{
    join(workspace_root, CONTROL_DIR)
}

} // verus!
