//! The path resolver: normalized joining of a directory and a file name, and
//! extraction of a path's leaf name for download responses.

use vstd::prelude::*;

verus! {

/// Normalized join of a directory and a file name over slash-separated
/// strings: an absolute name replaces the directory; otherwise one separator
/// is inserted unless the directory is empty or already ends with one.
pub open spec fn join_spec(dir: Seq<char>, name: Seq<char>) -> Seq<char> {
    if name.len() > 0 && name[0] == '/' {
        name
    } else if dir.len() == 0 {
        name
    } else if dir[dir.len() - 1] == '/' {
        dir + name
    } else {
        dir + seq!['/'] + name
    }
}

/// Joins a directory and a file name; the result is exactly [`join_spec`] of
/// the two inputs, so the join is deterministic.
pub fn join(dir: &str, name: &str) -> (r: String)
    ensures
        r@ == join_spec(dir@, name@),
{
    let name_len = name.unicode_len();
    if name_len > 0 && name.get_char(0) == '/' {
        return name.to_owned();
    }
    let dir_len = dir.unicode_len();
    if dir_len == 0 {
        return name.to_owned();
    }
    if dir.get_char(dir_len - 1) == '/' {
        return dir.to_owned().concat(name);
    }
    let r = dir.to_owned().concat("/").concat(name);
    proof {
        reveal_strlit("/");
        assert("/"@ =~= seq!['/']);
        assert(r@ =~= dir@ + seq!['/'] + name@);
    }
    r
}

/// Index of the last '/' in `p`, or -1 when `p` holds none.
pub open spec fn last_slash(p: Seq<char>) -> int
    decreases p.len(),
{
    if p.len() == 0 {
        -1
    } else if p[p.len() - 1] == '/' {
        p.len() - 1
    } else {
        last_slash(p.take(p.len() - 1))
    }
}

/// The leaf of a path: everything after the last '/', or the whole path when
/// it holds no separator.
pub open spec fn leaf_spec(p: Seq<char>) -> Seq<char> {
    p.subrange(last_slash(p) + 1, p.len() as int)
}

/// `last_slash` stays inside the bounds that its definition promises.
proof fn lemma_last_slash_bounds(p: Seq<char>)
    ensures
        -1 <= last_slash(p) < p.len(),
    decreases p.len(),
{
    if p.len() > 0 && p[p.len() - 1] != '/' {
        lemma_last_slash_bounds(p.take(p.len() - 1));
    }
}

/// The final named component of a path, read the way standard path-handling
/// does: trailing separators and trailing "." components are ignored, and
/// there is no component at all when nothing else remains or when the last
/// component is "..".
pub open spec fn file_name_spec(p: Seq<char>) -> Option<Seq<char>>
    decreases p.len(),
{
    if p.len() == 0 {
        None
    } else if p[p.len() - 1] == '/' {
        file_name_spec(p.take(p.len() - 1))
    } else if leaf_spec(p) == seq!['.'] {
        file_name_spec(p.take(p.len() - 1))
    } else if leaf_spec(p) == seq!['.', '.'] {
        None
    } else {
        Some(leaf_spec(p))
    }
}

/// Returns the path's final named component ([`file_name_spec`]), or
/// "unnamed.bin" when the path has no extractable leaf: nothing but
/// separators and "." components, or a final "..".
pub fn leaf_name(p: &str) -> (r: String)
    ensures
        file_name_spec(p@) matches Some(l) ==> r@ == l,
        file_name_spec(p@) is None ==> r@ == "unnamed.bin"@,
{
    let len = p.unicode_len();
    let mut end: usize = len;
    proof {
        assert(p@.take(len as int) =~= p@);
    }
    loop
        invariant
            end <= len,
            len == p@.len(),
            file_name_spec(p@) == file_name_spec(p@.take(end as int)),
        decreases end,
    {
        if end == 0 {
            return "unnamed.bin".to_owned();
        }
        if p.get_char(end - 1) == '/' {
            proof {
                assert(p@.take(end as int).take(end - 1) =~= p@.take(end - 1));
            }
            end = end - 1;
            continue ;
        }
        // start of the last component of the prefix that is still in play
        let mut j: usize = end;
        loop
            invariant
                j <= end,
                end <= len,
                len == p@.len(),
                last_slash(p@.take(end as int)) == last_slash(p@.take(j as int)),
            ensures
                j <= end,
                last_slash(p@.take(end as int)) == j - 1,
            decreases j,
        {
            if j == 0 {
                break ;
            }
            if p.get_char(j - 1) == '/' {
                proof {
                    assert(p@.take(j as int)[j - 1] == '/');
                }
                break ;
            }
            proof {
                assert(p@.take(j as int).take(j - 1) =~= p@.take(j - 1));
            }
            j = j - 1;
        }
        let seg = p.substring_char(j, end);
        proof {
            lemma_last_slash_bounds(p@.take(end as int));
            assert(p@.take(end as int).subrange(j as int, end as int) =~= p@.subrange(
                j as int,
                end as int,
            ));
            assert(leaf_spec(p@.take(end as int)) =~= seg@);
        }
        if crate::text::str_eq(seg, ".") {
            proof {
                reveal_strlit(".");
                assert("."@ =~= seq!['.']);
                assert(p@.take(end as int).take(end - 1) =~= p@.take(end - 1));
            }
            end = end - 1;
            continue ;
        }
        if crate::text::str_eq(seg, "..") {
            proof {
                reveal_strlit("..");
                assert(".."@ =~= seq!['.', '.']);
            }
            return "unnamed.bin".to_owned();
        }
        proof {
            reveal_strlit(".");
            reveal_strlit("..");
            assert("."@ =~= seq!['.']);
            assert(".."@ =~= seq!['.', '.']);
        }
        return seg.to_owned();
    }
}

} // verus!
