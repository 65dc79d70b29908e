//! Path Resolver helpers: joining the project root with a caller-relative
//! font reference, and deriving the transient intermediate path from the
//! resolved font path.

use vstd::prelude::*;

verus! {

/// `root` and `relative` joined with a single '/' separator.
pub open spec fn joined_path(root: Seq<char>, relative: Seq<char>) -> Seq<char> {
    root + seq!['/'] + relative
}

/// Where the extension of the final component of `s` begins, scanning
/// backward from position `i`: the position of the final '.', or `s.len()`
/// when the final component has no extension. A '.' that starts the final
/// component (a hidden file) does not begin an extension.
pub open spec fn stem_cut(s: Seq<char>, i: int) -> int
    recommends
        0 <= i <= s.len(),
    decreases i,
{
    if i <= 0 {
        s.len() as int
    } else if s[i - 1] == '/' {
        s.len() as int
    } else if s[i - 1] == '.' {
        if i - 1 == 0 || s[i - 2] == '/' {
            s.len() as int
        } else {
            i - 1
        }
    } else {
        stem_cut(s, i - 1)
    }
}

/// `path` with the extension of its final component replaced by `.bdf` (or
/// `.bdf` appended when it has none): the transient intermediate location.
pub open spec fn with_bdf_extension(path: Seq<char>) -> Seq<char> {
    path.take(stem_cut(path, path.len() as int)) + seq!['.', 'b', 'd', 'f']
}

/// Joins `root` and `relative` with a '/' separator.
pub fn path_join(root: &str, relative: &str) -> (s: String)
    ensures
        s@ == joined_path(root@, relative@),
{
    let mut out = root.to_owned();
    proof {
        reveal_strlit("/");
    }
    out.append("/");
    out.append(relative);
    proof {
        assert(out@ =~= joined_path(root@, relative@));
    }
    out
}

/// Finds the cut position of the extension, mirroring `stem_cut`.
fn find_cut(path: &str, i: usize) -> (r: usize)
    requires
        i <= path@.len(),
    ensures
        r == stem_cut(path@, i as int),
    decreases i,
{
    if i == 0 {
        path.unicode_len()
    } else {
        let c = path.get_char(i - 1);
        if c == '/' {
            path.unicode_len()
        } else if c == '.' {
            if i == 1 {
                path.unicode_len()
            } else {
                let c2 = path.get_char(i - 2);
                if c2 == '/' {
                    path.unicode_len()
                } else {
                    i - 1
                }
            }
        } else {
            find_cut(path, i - 1)
        }
    }
}

/// Derives the intermediate path: `path` with its extension replaced by
/// `.bdf`.
pub fn intermediate_path(path: &str) -> (s: String)
    ensures
        s@ == with_bdf_extension(path@),
{
    let n = path.unicode_len();
    let cut = find_cut(path, n);
    proof {
        lemma_stem_cut_bounds(path@, n as int);
    }
    let stem = path.substring_char(0, cut);
    let mut out = stem.to_owned();
    proof {
        reveal_strlit(".bdf");
    }
    out.append(".bdf");
    proof {
        assert(path@.subrange(0, cut as int) =~= path@.take(stem_cut(path@, n as int)));
        assert(".bdf"@ =~= seq!['.', 'b', 'd', 'f']);
        assert(out@ =~= with_bdf_extension(path@));
    }
    out
}

/// The cut position never passes the end of the path.
proof fn lemma_stem_cut_bounds(s: Seq<char>, i: int)
    requires
        0 <= i <= s.len(),
    ensures
        0 <= stem_cut(s, i) <= s.len(),
    decreases i,
{
    if i > 0 && s[i - 1] != '/' && s[i - 1] != '.' {
        lemma_stem_cut_bounds(s, i - 1);
    }
}

} // verus!
