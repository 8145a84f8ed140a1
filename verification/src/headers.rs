//! The ordered header list of an outgoing request.
//!
//! The Authorization header (when a token is set) comes first, then the
//! content type (when the body calls for one), then the caller's extra
//! headers, each appended exactly as given.  Extra headers never replace
//! the Authorization or content-type headers.

use vstd::prelude::*;
use vstd::string::*;

verus! {

/// The view of an ordered name/value pair list: each name and value as
/// its character sequence.
pub open spec fn pairs_view(pairs: Seq<(String, String)>) -> Seq<(Seq<char>, Seq<char>)> {
    pairs.map_values(|p: (String, String)| (p.0@, p.1@))
}

/// The view of optional extra headers: the empty list when none are
/// given.
pub open spec fn extra_view(extra: Option<&Vec<(String, String)>>) -> Seq<(Seq<char>, Seq<char>)> {
    match extra {
        Some(v) => pairs_view(v@),
        None => Seq::empty(),
    }
}

/// The view of an optional owned string.
pub open spec fn opt_string_view(o: Option<String>) -> Option<Seq<char>> {
    match o {
        Some(s) => Some(s@),
        None => None,
    }
}

/// The view of an optional string slice.
pub open spec fn opt_str_view(o: Option<&str>) -> Option<Seq<char>> {
    match o {
        Some(s) => Some(s@),
        None => None,
    }
}

/// The value of the Authorization header carrying a bearer token.
pub open spec fn bearer_of(token: Seq<char>) -> Seq<char> {
    "Bearer "@ + token
}

/// The ordered header list of a request: the Authorization header when a
/// token is set, then the content type when one is called for, then the
/// caller's extra headers, each exactly as given.
pub open spec fn spec_headers(
    token: Option<Seq<char>>,
    content_type: Option<Seq<char>>,
    extra: Seq<(Seq<char>, Seq<char>)>,
) -> Seq<(Seq<char>, Seq<char>)> {
    (match token {
        Some(t) => seq![("authorization"@, bearer_of(t))],
        None => Seq::<(Seq<char>, Seq<char>)>::empty(),
    }) + (match content_type {
        Some(c) => seq![("content-type"@, c)],
        None => Seq::<(Seq<char>, Seq<char>)>::empty(),
    }) + extra
}

/// Build the header list for a request from the configured token, the
/// content type the body calls for, and the caller's extra headers.
pub fn build_headers(
    token: &Option<String>,
    content_type: Option<&str>,
    extra: Option<&Vec<(String, String)>>,
) -> (h: Vec<(String, String)>)
    ensures
        pairs_view(h@) == spec_headers(
            opt_string_view(*token),
            opt_str_view(content_type),
            extra_view(extra),
        ),
{
    let ghost tv = opt_string_view(*token);
    let ghost cv = opt_str_view(content_type);
    let ghost ev = extra_view(extra);
    let mut h: Vec<(String, String)> = Vec::new();
    match token {
        Some(t) => {
            let mut value = "Bearer ".to_owned();
            value.append(t.as_str());
            h.push(("authorization".to_owned(), value));
        },
        None => {},
    }
    match content_type {
        Some(c) => {
            h.push(("content-type".to_owned(), c.to_owned()));
        },
        None => {},
    }
    proof {
        assert(pairs_view(h@) =~= spec_headers(tv, cv, ev.subrange(0, 0)));
    }
    match extra {
        Some(list) => {
            let mut i: usize = 0;
            while i < list.len()
                invariant
                    i <= list@.len(),
                    ev == pairs_view(list@),
                    tv == opt_string_view(*token),
                    cv == opt_str_view(content_type),
                    pairs_view(h@) == spec_headers(tv, cv, ev.subrange(0, i as int)),
                decreases list@.len() - i,
            {
                let name = list[i].0.clone();
                let value = list[i].1.clone();
                let ghost h_before = h@;
                h.push((name, value));
                proof {
                    lemma_pairs_view_push(h_before, (name, value));
                    lemma_spec_headers_push(tv, cv, ev.subrange(0, i as int), ev[i as int]);
                    assert(ev[i as int] == (list@[i as int].0@, list@[i as int].1@));
                    assert(ev.subrange(0, i as int).push(ev[i as int]) =~= ev.subrange(
                        0,
                        i as int + 1,
                    ));
                }
                i += 1;
            }
            proof {
                assert(ev.subrange(0, ev.len() as int) =~= ev);
            }
        },
        None => {
            proof {
                assert(ev.subrange(0, 0) =~= ev);
            }
        },
    }
    h
}

proof fn lemma_pairs_view_push(s: Seq<(String, String)>, p: (String, String))
    ensures
        pairs_view(s.push(p)) == pairs_view(s).push((p.0@, p.1@)),
{
    assert(pairs_view(s.push(p)) =~= pairs_view(s).push((p.0@, p.1@)));
}

proof fn lemma_spec_headers_push(
    token: Option<Seq<char>>,
    content_type: Option<Seq<char>>,
    extra: Seq<(Seq<char>, Seq<char>)>,
    pair: (Seq<char>, Seq<char>),
)
    ensures
        spec_headers(token, content_type, extra.push(pair)) == spec_headers(
            token,
            content_type,
            extra,
        ).push(pair),
{
    assert(spec_headers(token, content_type, extra.push(pair)) =~= spec_headers(
        token,
        content_type,
        extra,
    ).push(pair));
}

/// Law: every extra header stands in the header list exactly as given,
/// after the Authorization and content-type headers, and replaces
/// neither.
pub proof fn lemma_extra_headers_kept(
    token: Option<Seq<char>>,
    content_type: Option<Seq<char>>,
    extra: Seq<(Seq<char>, Seq<char>)>,
)
    ensures
        ({
            let fixed = spec_headers(token, content_type, Seq::empty());
            let all = spec_headers(token, content_type, extra);
            &&& all.len() == fixed.len() + extra.len()
            &&& forall|i: int| 0 <= i < fixed.len() ==> all[i] == fixed[i]
            &&& forall|i: int| 0 <= i < extra.len() ==> all[fixed.len() + i] == extra[i]
        }),
{
}

/// Law: with a token the first header is the Authorization header with
/// the exact bearer value; without one no header in the list is named
/// `authorization`, as long as the caller's extra headers carry none.
pub proof fn lemma_authorization_header(
    token: Option<Seq<char>>,
    content_type: Option<Seq<char>>,
    extra: Seq<(Seq<char>, Seq<char>)>,
)
    requires
        forall|i: int| 0 <= i < extra.len() ==> (#[trigger] extra[i]).0 != "authorization"@,
    ensures
        token matches Some(t) ==> spec_headers(token, content_type, extra)[0] == (
            "authorization"@,
            bearer_of(t),
        ),
        token is None ==> forall|i: int|
            0 <= i < spec_headers(token, content_type, extra).len() ==> (#[trigger] spec_headers(
                token,
                content_type,
                extra,
            )[i]).0 != "authorization"@,
{
    reveal_strlit("authorization");
    reveal_strlit("content-type");
    assert("authorization"@.len() == 13);
    assert("content-type"@.len() == 12);
    if token is None {
        let all = spec_headers(token, content_type, extra);
        assert forall|i: int| 0 <= i < all.len() implies (#[trigger] all[i]).0
            != "authorization"@ by {
            match content_type {
                Some(c) => {
                    if i == 0 {
                        assert(all[0].0 == "content-type"@);
                    } else {
                        assert(all[i] == extra[i - 1]);
                    }
                },
                None => {
                    assert(all[i] == extra[i]);
                },
            }
        }
    }
}

} // verus!
