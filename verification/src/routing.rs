//! The route dispatcher: splits one wildcard path segment into a leading
//! operation token and a remainder, and picks the operation, enforcing the
//! query parameter that a search requires.

use vstd::prelude::*;
use crate::text::str_eq;

verus! {

/// Index of the first '/' in `p`, or -1 when `p` holds none.
pub open spec fn first_slash(p: Seq<char>) -> int
    decreases p.len(),
{
    if p.len() == 0 {
        -1
    } else if p[0] == '/' {
        0
    } else if first_slash(p.drop_first()) == -1 {
        -1
    } else {
        1 + first_slash(p.drop_first())
    }
}

/// The leading token of a wildcard path: everything before the first '/', or
/// the whole path when it holds no separator.
pub open spec fn spec_token(p: Seq<char>) -> Seq<char> {
    if first_slash(p) >= 0 {
        p.take(first_slash(p))
    } else {
        p
    }
}

/// The remainder of a wildcard path after the first '/', or empty when the
/// path holds no separator.
pub open spec fn spec_subpath(p: Seq<char>) -> Seq<char> {
    if first_slash(p) >= 0 {
        p.subrange(first_slash(p) + 1, p.len() as int)
    } else {
        Seq::empty()
    }
}

/// `first_slash` finds a '/' inside the bounds, and nothing before it is one.
pub proof fn lemma_first_slash_props(p: Seq<char>)
    ensures
        -1 <= first_slash(p) < p.len(),
        first_slash(p) >= 0 ==> p[first_slash(p)] == '/',
        forall|j: int| 0 <= j < first_slash(p) ==> p[j] != '/',
        first_slash(p) == -1 ==> forall|j: int| 0 <= j < p.len() ==> p[j] != '/',
    decreases p.len(),
{
    if p.len() > 0 && p[0] != '/' {
        let q = p.drop_first();
        lemma_first_slash_props(q);
        assert forall|j: int| 0 <= j < first_slash(p) implies p[j] != '/' by {
            if j > 0 {
                assert(q[j - 1] != '/');
            }
        }
        if first_slash(p) == -1 {
            assert forall|j: int| 0 <= j < p.len() implies p[j] != '/' by {
                if j > 0 {
                    assert(q[j - 1] != '/');
                }
            }
        }
    }
}

/// Splitting never loses a character: when the path holds a separator the
/// token, one '/', and the remainder concatenate back to the path, and the
/// token holds no separator of its own; otherwise the token is the whole path
/// and the remainder is empty.
pub proof fn lemma_split_round_trip(p: Seq<char>)
    ensures
        (exists|i: int| 0 <= i < p.len() && p[i] == '/') ==> spec_token(p) + seq!['/']
            + spec_subpath(p) == p,
        !(exists|i: int| 0 <= i < p.len() && p[i] == '/') ==> spec_token(p) == p && spec_subpath(
            p,
        ).len() == 0,
        forall|j: int| 0 <= j < spec_token(p).len() ==> spec_token(p)[j] != '/',
{
    lemma_first_slash_props(p);
    if exists|i: int| 0 <= i < p.len() && p[i] == '/' {
        assert(first_slash(p) >= 0) by {
            if first_slash(p) == -1 {
                let i = choose|i: int| 0 <= i < p.len() && p[i] == '/';
                assert(p[i] != '/');
            }
        }
        assert(spec_token(p) + seq!['/'] + spec_subpath(p) =~= p);
    }
}

/// Splits a wildcard path on its first '/' into the leading token and the
/// remainder; the remainder defaults to empty when no separator exists.
pub fn split_wildcard(p: &str) -> (r: (String, String))
    ensures
        r.0@ == spec_token(p@),
        r.1@ == spec_subpath(p@),
{
    let len = p.unicode_len();
    let mut i: usize = 0;
    loop
        invariant
            i <= len,
            len == p@.len(),
            forall|j: int| 0 <= j < i ==> p@[j] != '/',
        ensures
            i <= len,
            len == p@.len(),
            forall|j: int| 0 <= j < i ==> p@[j] != '/',
            (i < len) == (first_slash(p@) >= 0),
            i < len ==> first_slash(p@) == i,
        decreases len - i,
    {
        proof {
            lemma_first_slash_props(p@);
        }
        if i == len {
            proof {
                if first_slash(p@) >= 0 {
                    assert(p@[first_slash(p@)] != '/');
                }
            }
            break ;
        }
        if p.get_char(i) == '/' {
            proof {
                if first_slash(p@) == -1 {
                    assert(p@[i as int] != '/');
                }
                if first_slash(p@) > i {
                    assert(p@[i as int] != '/');
                }
                if 0 <= first_slash(p@) < i {
                    assert(p@[first_slash(p@)] != '/');
                }
            }
            break ;
        }
        i = i + 1;
    }
    if i == len {
        (p.to_owned(), String::new())
    } else {
        let token = p.substring_char(0, i).to_owned();
        let rest = p.substring_char(i + 1, len).to_owned();
        proof {
            assert(spec_token(p@) =~= p@.subrange(0, i as int));
        }
        (token, rest)
    }
}

/// The closed set of operations a wildcard path can name.
#[derive(Debug, PartialEq, Eq, Structural, Clone, Copy)]
pub enum Route {
    /// List the subtree rooted at the remainder.
    Tree,
    /// Stream back the file at the remainder.
    Download,
    /// Search under the remainder as root.
    Search,
    /// Anything else: an unrecognized route.
    Unknown,
}

/// The operation a leading token names.
pub open spec fn spec_route(tok: Seq<char>) -> Route {
    if tok == "tree"@ {
        Route::Tree
    } else if tok == "download"@ {
        Route::Download
    } else if tok == "search"@ {
        Route::Search
    } else {
        Route::Unknown
    }
}

/// Maps a leading token to the operation it names.
pub fn parse_route(tok: &str) -> (r: Route)
    ensures
        r == spec_route(tok@),
{
    if str_eq(tok, "tree") {
        Route::Tree
    } else if str_eq(tok, "download") {
        Route::Download
    } else if str_eq(tok, "search") {
        Route::Search
    } else {
        Route::Unknown
    }
}

/// The dispatch decision for one wildcard request: which operation to run on
/// which subpath, or the response that rejects the request outright.
#[derive(Debug, PartialEq, Eq)]
pub enum Dispatch {
    /// List the subtree rooted at the subpath.
    Tree { subpath: String },
    /// Stream back the file at the subpath.
    Download { subpath: String },
    /// Search for `query` under the subpath as root.
    Search { subpath: String, query: String },
    /// Reject the request with this status and message, calling no operation.
    Reject { status: u16, message: String },
}

/// Splits the wildcard path and picks the operation: tree and download take
/// the remainder as their subpath; search additionally requires the
/// `search_path` query parameter and is rejected with 422 without it; an
/// unrecognized token is rejected with 404.
pub fn dispatch(path: &str, search_path: Option<String>) -> (r: Dispatch)
    ensures
        spec_route(spec_token(path@)) == Route::Tree ==> (r matches Dispatch::Tree { subpath }
            && subpath@ == spec_subpath(path@)),
        spec_route(spec_token(path@)) == Route::Download ==> (r matches Dispatch::Download {
            subpath,
        } && subpath@ == spec_subpath(path@)),
        spec_route(spec_token(path@)) == Route::Search && search_path is Some ==> (
        r matches Dispatch::Search { subpath, query } && subpath@ == spec_subpath(path@) && query
            == search_path.unwrap()),
        spec_route(spec_token(path@)) == Route::Search && search_path is None ==> (
        r matches Dispatch::Reject { status, message } && status == 422 && message@
            == "search_path query parameter is required"@),
        spec_route(spec_token(path@)) == Route::Unknown ==> (r matches Dispatch::Reject {
            status,
            message,
        } && status == 404 && message@ == "Not found"@),
{
    let (token, rest) = split_wildcard(path);
    match parse_route(token.as_str()) {
        Route::Tree => Dispatch::Tree { subpath: rest },
        Route::Download => Dispatch::Download { subpath: rest },
        Route::Search => match search_path {
            Some(query) => Dispatch::Search { subpath: rest, query },
            None => Dispatch::Reject {
                status: 422,
                message: "search_path query parameter is required".to_owned(),
            },
        },
        Route::Unknown => Dispatch::Reject { status: 404, message: "Not found".to_owned() },
    }
}

} // verus!
