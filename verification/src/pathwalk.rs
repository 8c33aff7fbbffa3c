//! The directories an absolute root path is walked through, one opened
//! directory at a time, never through `..`.
use crate::text::{split, split_on};
use vstd::prelude::*;

verus! {

/// Longest root path accepted, in bytes.
pub const MAX_ROOT_PATH: usize = 4096;

/// A path segment that names a directory: not empty and not `.`.
pub open spec fn names_directory(s: Seq<char>) -> bool {
    s.len() > 0 && s != "."@
}

/// The directories an absolute path of at most the bound names below `/`,
/// as `Path::components` gives them (empty and `.` segments dropped); a
/// relative path, an overlong one or one through `..` names none.
pub open spec fn root_walk(path: Seq<char>) -> Option<Seq<Seq<char>>> {
    let segs = split_on(path, '/');
    if path.len() > 0 && path[0] == '/' && crate::runtime::control::bytes(path).len()
        <= MAX_ROOT_PATH && !segs.contains(".."@) {
        Some(segs.filter(|s: Seq<char>| names_directory(s)))
    } else {
        None
    }
}

/// The directories to open, in order, for the root path `path`.
pub fn walk(path: &str) -> (r: Option<Vec<String>>)
    ensures
        match r {
            Some(v) => root_walk(path@) == Some(v@.map_values(|s: String| s@)),
            None => root_walk(path@) is None,
        },
{
    proof {
        reveal_strlit(".");
        reveal_strlit("..");
    }
    let cs = crate::text::chars_of(path);
    if cs.len() == 0 || cs[0] != '/' || path.as_bytes().len() > MAX_ROOT_PATH {
        return None;
    }
    let segs = split(path, '/');
    let ghost sv = segs@.map_values(|s: String| s@);
    let mut out: Vec<String> = Vec::new();
    let mut i: usize = 0;
    while i < segs.len()
        invariant
            i <= segs@.len(),
            sv == segs@.map_values(|s: String| s@),
            sv == split_on(path@, '/'),
            forall|k: int| 0 <= k < i ==> sv[k] != ".."@,
            out@.map_values(|s: String| s@) == sv.take(i as int).filter(
                |s: Seq<char>| names_directory(s),
            ),
        decreases segs@.len() - i,
    {
        let ghost seg = sv[i as int];
        assert(seg == segs@[i as int]@);
        let dots = crate::text::str_eq(segs[i].as_str(), "..");
        if dots {
            assert(sv[i as int] == ".."@);
            return None;
        }
        let dot = crate::text::str_eq(segs[i].as_str(), ".");
        let empty = crate::text::chars_of(segs[i].as_str()).len() == 0;
        proof {
            assert(sv.take(i + 1).drop_last() =~= sv.take(i as int));
            assert(sv.take(i + 1).last() == seg);
            reveal(Seq::filter);
        }
        let ghost before = out@;
        if !dot && !empty {
            out.push(segs[i].clone());
            assert(out@.map_values(|s: String| s@) =~= before.map_values(|s: String| s@).push(seg));
        }
        i = i + 1;
    }
    proof {
        assert(sv.take(i as int) =~= sv);
        assert(!sv.contains(".."@));
    }
    Some(out)
}

} // verus!
