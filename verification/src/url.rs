//! Joining a base URL with a request path.
//!
//! A base URL may or may not carry a trailing slash, and a request path may
//! or may not carry a leading slash; the joined URL has exactly one
//! separating slash either way.

use vstd::prelude::*;
use vstd::string::*;

verus! {

/// The joined URL: base and path with exactly one separating slash.
pub open spec fn join_spec(base: Seq<char>, path: Seq<char>) -> Seq<char> {
    let base_slash = base.len() > 0 && base.last() == '/';
    let path_slash = path.len() > 0 && path[0] == '/';
    if base_slash && path_slash {
        base + path.subrange(1, path.len() as int)
    } else if !base_slash && !path_slash {
        base + seq!['/'] + path
    } else {
        base + path
    }
}

/// Join a base URL and a request path with exactly one separating slash.
pub fn join_url(base: &str, path: &str) -> (url: String)
    ensures
        url@ == join_spec(base@, path@),
{
    let blen = base.unicode_len();
    let plen = path.unicode_len();
    let base_slash = blen > 0 && base.get_char(blen - 1) == '/';
    let path_slash = plen > 0 && path.get_char(0) == '/';
    let mut url = base.to_owned();
    if base_slash && path_slash {
        url.append(path.substring_char(1, plen));
        proof {
            assert(url@ =~= join_spec(base@, path@));
        }
    } else if !base_slash && !path_slash {
        url.append("/");
        url.append(path);
        proof {
            reveal_strlit("/");
            assert("/"@ =~= seq!['/']);
            assert(url@ =~= join_spec(base@, path@));
        }
    } else {
        url.append(path);
    }
    url
}

/// A base URL given with a trailing slash and the same base URL given
/// without one produce the same joined URL for every path.
pub proof fn lemma_trailing_slash_irrelevant(base: Seq<char>, path: Seq<char>)
    requires
        !(base.len() > 0 && base.last() == '/'),
    ensures
        join_spec(base + seq!['/'], path) == join_spec(base, path),
{
    let with_slash = base + seq!['/'];
    assert(with_slash.last() == '/');
    if path.len() > 0 && path[0] == '/' {
        assert(join_spec(with_slash, path) =~= join_spec(base, path));
    } else {
        assert(join_spec(with_slash, path) =~= join_spec(base, path));
    }
}

} // verus!
