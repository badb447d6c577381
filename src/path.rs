use vstd::prelude::*;
use vstd::string::{StrSliceExecFns, StringExecFns};

verus! {

/// A path is absolute when it starts with a separator or a drive letter.
pub open spec fn is_absolute(p: Seq<char>) -> bool {
    (p.len() >= 1 && p[0] == '/') || (p.len() >= 2 && p[1] == ':')
}

/// Where an asset path points: on native targets a relative path is rooted in
/// the `static/` directory; absolute paths, and all paths on the web, stand
/// as they are.
pub open spec fn resolved_path(p: Seq<char>, native: bool) -> Seq<char> {
    if native && !is_absolute(p) {
        "static/"@ + p
    } else {
        p
    }
}

/// Resolves an asset path for opening.
pub fn resolve_path(filename: &str, native: bool) -> (r: String)
    ensures
        r@ == resolved_path(filename@, native),
{
    let len = filename.unicode_len();
    let absolute = (len >= 1 && filename.get_char(0) == '/') || (len >= 2 && filename.get_char(1)
        == ':');
    if native && !absolute {
        let mut full = String::from_str("static/");
        full.append(filename);
        full
    } else {
        String::from_str(filename)
    }
}

} // verus!
