use vstd::prelude::*;

use crate::text::concat;

verus! {

/// `rel` appended to `base` with one `/` between them; an empty base leaves
/// `rel` as it is.
pub open spec fn join_path(base: Seq<char>, rel: Seq<char>) -> Seq<char> {
    if base.len() == 0 {
        rel
    } else if base.last() == '/' {
        base + rel
    } else {
        base + "/"@ + rel
    }
}

/// Joins a relative path onto a base path with `/` (see `join_path`).
pub fn join(base: &str, rel: &str) -> (r: String)
    ensures
        r@ == join_path(base@, rel@),
{
    let n = base.unicode_len();
    if n == 0 {
        String::from_str(rel)
    } else if base.get_char(n - 1) == '/' {
        concat(base, rel)
    } else {
        let s = concat(base, "/");
        s.concat(rel)
    }
}

} // verus!
