//! Path computation for the asset resolver: joining a request path onto the
//! asset root, with the entry document served for the root route.

use vstd::prelude::*;

verus! {

/// How `PathBuf::push` combines a base directory with a further path on a
/// `/`-separated filesystem: an absolute second path replaces the base, and a
/// separator is inserted only where one is needed.
pub open spec fn path_join(base: Seq<char>, rel: Seq<char>) -> Seq<char> {
    if rel.len() > 0 && rel[0] == '/' {
        rel
    } else if base.len() > 0 && base[base.len() - 1] == '/' {
        base + rel
    } else if base.len() == 0 {
        rel
    } else {
        base + seq!['/'] + rel
    }
}

/// Joins `rel` onto the directory `base`, as `PathBuf::join` does.
pub fn join_path(base: &str, rel: &str) -> (r: String)
    ensures
        r@ == path_join(base@, rel@),
{
    let rel_len = rel.unicode_len();
    let base_len = base.unicode_len();
    if rel_len > 0 && rel.get_char(0) == '/' {
        rel.to_owned()
    } else if base_len > 0 && base.get_char(base_len - 1) == '/' {
        let mut r = base.to_owned();
        r.append(rel);
        r
    } else if base_len == 0 {
        rel.to_owned()
    } else {
        let mut r = base.to_owned();
        r.append("/");
        r.append(rel);
        proof {
            reveal_strlit("/");
            assert(r@ =~= base@ + seq!['/'] + rel@);
        }
        r
    }
}

} // verus!
