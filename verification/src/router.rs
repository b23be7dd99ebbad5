//! The mock request router: given an incoming method and path-plus-query and
//! an ordered rule set, select at most one rule in two passes — an exact,
//! query-sensitive pass, then a query-agnostic generic pass — and render the
//! selected rule into a well-formed response, or 404 with an empty body.
use vstd::prelude::*;

use crate::http::HttpResponse;
use crate::http::check_header_name;
use crate::http::check_header_value;
use crate::http::effective_status;
use crate::http::eq_ci;
use crate::http::spec_effective_status;
use crate::http::str_eq;
use crate::http::str_eq_ci;
use crate::http::valid_header_name;
use crate::http::valid_header_value;

verus! {

/// The canned response a rule serves: declared status, header pairs, body.
#[derive(Clone, Debug)]
pub struct ResponseDefinition {
    pub status: u16,
    pub headers: Vec<(String, String)>,
    pub body: String,
}

/// One mock rule: a method token, a path that may or may not start with `/`
/// and may embed a query string, and the response to serve.
#[derive(Clone, Debug)]
pub struct MockRequestDefinition {
    pub method: String,
    pub path: String,
    pub response: ResponseDefinition,
}

/// A rule's path normalized to have a leading `/`.
pub open spec fn norm(p: Seq<char>) -> Seq<char> {
    if p.len() > 0 && p[0] == '/' {
        p
    } else {
        seq!['/'] + p
    }
}

/// Whether a path carries a query-string marker.
pub open spec fn has_query(p: Seq<char>) -> bool {
    exists|i: int| 0 <= i < p.len() && p[i] == '?'
}

/// The index of the first query-string marker, or the length if none.
pub open spec fn query_index(p: Seq<char>) -> int
    decreases p.len(),
{
    if p.len() == 0 {
        0
    } else if p[0] == '?' {
        0
    } else {
        1 + query_index(p.subrange(1, p.len() as int))
    }
}

/// The part of a path before its first query-string marker.
pub open spec fn path_only(p: Seq<char>) -> Seq<char> {
    p.take(query_index(p))
}

/// `query_index` is the least index holding `?`, or the length if none.
pub proof fn lemma_query_index(p: Seq<char>)
    ensures
        0 <= query_index(p) <= p.len(),
        forall|j: int| 0 <= j < query_index(p) ==> p[j] != '?',
        query_index(p) < p.len() ==> p[query_index(p)] == '?',
        has_query(p) <==> query_index(p) < p.len(),
    decreases p.len(),
{
    if p.len() == 0 {
    } else if p[0] == '?' {
    } else {
        let t = p.subrange(1, p.len() as int);
        lemma_query_index(t);
        assert forall|j: int| 0 <= j < query_index(p) implies p[j] != '?' by {
            if j > 0 {
                assert(t[j - 1] != '?');
            }
        }
        if query_index(p) < p.len() {
            assert(t[query_index(p) - 1] == '?');
        }
        if has_query(p) {
            let i = choose|i: int| 0 <= i < p.len() && p[i] == '?';
            assert(i > 0 && t[i - 1] == '?');
            assert(has_query(t));
        }
        if has_query(t) {
            let i = choose|i: int| 0 <= i < t.len() && t[i] == '?';
            assert(p[i + 1] == '?');
        }
    }
}

/// Exact match: the methods agree up to ASCII case and the rule's normalized
/// path equals the request's path-and-query verbatim.
pub open spec fn exact_matches(r: MockRequestDefinition, m: Seq<char>, pq: Seq<char>) -> bool {
    eq_ci(r.method@, m) && norm(r.path@) == pq
}

/// Generic match: the rule's normalized path carries no query-string marker,
/// the methods agree up to ASCII case, and the rule's normalized path equals
/// the request's path with its query ignored.
pub open spec fn generic_matches(r: MockRequestDefinition, m: Seq<char>, pq: Seq<char>) -> bool {
    eq_ci(r.method@, m) && !has_query(norm(r.path@)) && norm(r.path@) == path_only(pq)
}

/// Some rule in `rules` matches exactly.
pub open spec fn has_exact(rules: Seq<MockRequestDefinition>, m: Seq<char>, pq: Seq<char>) -> bool {
    exists|i: int| 0 <= i < rules.len() && exact_matches(rules[i], m, pq)
}

/// Some rule in `rules` matches generically.
pub open spec fn has_generic(
    rules: Seq<MockRequestDefinition>,
    m: Seq<char>,
    pq: Seq<char>,
) -> bool {
    exists|i: int| 0 <= i < rules.len() && generic_matches(rules[i], m, pq)
}

/// `i` is the first exact match in declared order.
pub open spec fn first_exact(
    rules: Seq<MockRequestDefinition>,
    m: Seq<char>,
    pq: Seq<char>,
    i: int,
) -> bool {
    &&& 0 <= i < rules.len()
    &&& exact_matches(rules[i], m, pq)
    &&& forall|j: int| 0 <= j < i ==> !exact_matches(rules[j], m, pq)
}

/// `i` is the first generic match in declared order.
pub open spec fn first_generic(
    rules: Seq<MockRequestDefinition>,
    m: Seq<char>,
    pq: Seq<char>,
    i: int,
) -> bool {
    &&& 0 <= i < rules.len()
    &&& generic_matches(rules[i], m, pq)
    &&& forall|j: int| 0 <= j < i ==> !generic_matches(rules[j], m, pq)
}

/// The rule the router selects for a request, if any: the first exact match,
/// and only when no exact match exists, the first generic match.
pub open spec fn selects(
    rules: Seq<MockRequestDefinition>,
    m: Seq<char>,
    pq: Seq<char>,
    r: Option<usize>,
) -> bool {
    &&& (has_exact(rules, m, pq) ==> r is Some && first_exact(rules, m, pq, r->0 as int))
    &&& (!has_exact(rules, m, pq) && has_generic(rules, m, pq) ==> r is Some && first_generic(
        rules,
        m,
        pq,
        r->0 as int,
    ))
    &&& (!has_exact(rules, m, pq) && !has_generic(rules, m, pq) ==> r is None)
}

/// A rule's path normalized to have a leading `/`.
pub fn normalize_path(p: &str) -> (r: String)
    ensures
        r@ == norm(p@),
{
    let n = p.unicode_len();
    if n > 0 && p.get_char(0) == '/' {
        p.to_owned()
    } else {
        proof {
            reveal_strlit("/");
            assert("/"@ =~= seq!['/']);
        }
        let r = String::from_str("/").concat(p);
        proof {
            assert(r@ =~= seq!['/'] + p@);
        }
        r
    }
}

/// Whether a path carries a query-string marker.
pub fn contains_query(p: &str) -> (r: bool)
    ensures
        r == has_query(p@),
{
    let n = p.unicode_len();
    let mut i: usize = 0;
    while i < n
        invariant
            n == p@.len(),
            i <= n,
            forall|j: int| 0 <= j < i ==> p@[j] != '?',
        decreases n - i,
    {
        if p.get_char(i) == '?' {
            return true;
        }
        i = i + 1;
    }
    false
}

/// The part of a path before its first query-string marker.
pub fn strip_query(p: &str) -> (r: String)
    ensures
        r@ == path_only(p@),
{
    proof {
        lemma_query_index(p@);
    }
    let n = p.unicode_len();
    let mut i: usize = 0;
    while i < n
        invariant
            n == p@.len(),
            i <= n,
            forall|j: int| 0 <= j < i ==> p@[j] != '?',
        decreases n - i,
    {
        if p.get_char(i) == '?' {
            proof {
                lemma_query_index(p@);
                let qi = query_index(p@);
                if qi < i as int {
                    assert(p@[qi] == '?');
                } else if qi > i as int {
                    assert(p@[i as int] != '?');
                }
                assert(qi == i as int);
            }
            return p.substring_char(0, i).to_owned();
        }
        i = i + 1;
    }
    proof {
        assert(query_index(p@) == n as int);
        assert(p@.take(n as int) =~= p@);
    }
    p.to_owned()
}

/// The position of the rule serving a request, by the two-pass strategy: the
/// first exact match wins; only when no rule matches exactly, the first
/// query-free rule matching the query-stripped path wins.
pub fn find_rule(rules: &Vec<MockRequestDefinition>, method: &str, path_and_query: &str) -> (r:
    Option<usize>)
    ensures
        selects(rules@, method@, path_and_query@, r),
{
    let n = rules.len();
    let mut i: usize = 0;
    while i < n
        invariant
            n == rules@.len(),
            i <= n,
            forall|j: int| 0 <= j < i ==> !exact_matches(rules@[j], method@, path_and_query@),
        decreases n - i,
    {
        let rule = &rules[i];
        let rp = normalize_path(rule.path.as_str());
        if str_eq_ci(rule.method.as_str(), method) && str_eq(rp.as_str(), path_and_query) {
            proof {
                assert(exact_matches(rules@[i as int], method@, path_and_query@));
            }
            return Some(i);
        }
        proof {
            assert(!exact_matches(rules@[i as int], method@, path_and_query@));
        }
        i = i + 1;
    }
    let req_path = strip_query(path_and_query);
    let mut i: usize = 0;
    while i < n
        invariant
            n == rules@.len(),
            i <= n,
            req_path@ == path_only(path_and_query@),
            forall|j: int| 0 <= j < n ==> !exact_matches(rules@[j], method@, path_and_query@),
            forall|j: int| 0 <= j < i ==> !generic_matches(rules@[j], method@, path_and_query@),
        decreases n - i,
    {
        let rule = &rules[i];
        let rp = normalize_path(rule.path.as_str());
        if !contains_query(rp.as_str()) && str_eq_ci(rule.method.as_str(), method) && str_eq(
            rp.as_str(),
            req_path.as_str(),
        ) {
            proof {
                assert(generic_matches(rules@[i as int], method@, path_and_query@));
            }
            return Some(i);
        }
        proof {
            assert(!generic_matches(rules@[i as int], method@, path_and_query@));
        }
        i = i + 1;
    }
    None
}

/// The header pairs a rule's mapping yields on the wire: entries whose key or
/// value cannot be encoded as an HTTP header are skipped, order is kept.
pub open spec fn encodable_headers(hs: Seq<(String, String)>) -> Seq<(String, String)> {
    hs.filter(|p: (String, String)| valid_header_name(p.0@) && valid_header_value(p.1@))
}

fn filter_headers(hs: &Vec<(String, String)>) -> (r: Vec<(String, String)>)
    ensures
        r@ == encodable_headers(hs@),
{
    let n = hs.len();
    let mut r: Vec<(String, String)> = Vec::new();
    let mut i: usize = 0;
    proof {
        reveal(Seq::filter);
        assert(hs@.take(0).filter(
            |p: (String, String)| valid_header_name(p.0@) && valid_header_value(p.1@),
        ) =~= Seq::<(String, String)>::empty());
    }
    while i < n
        invariant
            n == hs@.len(),
            i <= n,
            r@ == hs@.take(i as int).filter(
                |p: (String, String)| valid_header_name(p.0@) && valid_header_value(p.1@),
            ),
        decreases n - i,
    {
        let keep = check_header_name(hs[i].0.as_str()) && check_header_value(hs[i].1.as_str());
        proof {
            reveal(Seq::filter);
            let taken = hs@.take(i + 1);
            assert(taken.drop_last() =~= hs@.take(i as int));
            assert(taken.last() == hs@[i as int]);
        }
        if keep {
            let pair = (hs[i].0.clone(), hs[i].1.clone());
            proof {
                assert(pair.0@ == hs@[i as int].0@ && pair.1@ == hs@[i as int].1@);
                assert(pair == hs@[i as int]);
            }
            r.push(pair);
        }
        i = i + 1;
    }
    proof {
        assert(hs@.take(n as int) =~= hs@);
    }
    r
}

/// What a rendered response owes to the rule it was drawn from: the declared
/// status with the invalid-status fallback, the encodable header pairs in
/// order, and the body verbatim.
pub open spec fn rendered_from(r: HttpResponse, d: ResponseDefinition) -> bool {
    &&& r.status == spec_effective_status(d.status)
    &&& r.headers@ == encodable_headers(d.headers@)
    &&& r.body@ == d.body@
}

/// A not-found result: 404 with no headers and an empty body.
pub open spec fn is_not_found(r: HttpResponse) -> bool {
    &&& r.status == 404u16
    &&& r.headers@ == Seq::<(String, String)>::empty()
    &&& r.body@ == Seq::<char>::empty()
}

/// Renders a selected rule's response definition into a servable response.
pub fn render_response(d: &ResponseDefinition) -> (r: HttpResponse)
    ensures
        rendered_from(r, *d),
{
    HttpResponse {
        status: effective_status(d.status),
        headers: filter_headers(&d.headers),
        body: d.body.clone(),
    }
}

/// The response for a request no rule serves: HTTP 404, empty body.
pub fn not_found_response() -> (r: HttpResponse)
    ensures
        is_not_found(r),
{
    proof {
        reveal_strlit("");
        assert(""@ =~= Seq::<char>::empty());
    }
    HttpResponse { status: 404, headers: Vec::new(), body: String::from_str("") }
}

/// Serves one request against a rule set: selects a rule by the two-pass
/// strategy and renders it, or yields the not-found response.
pub fn respond(rules: &Vec<MockRequestDefinition>, method: &str, path_and_query: &str) -> (r:
    HttpResponse)
    ensures
        has_exact(rules@, method@, path_and_query@) ==> exists|i: int|
            first_exact(rules@, method@, path_and_query@, i) && rendered_from(
                r,
                rules@[i].response,
            ),
        !has_exact(rules@, method@, path_and_query@) && has_generic(
            rules@,
            method@,
            path_and_query@,
        ) ==> exists|i: int|
            first_generic(rules@, method@, path_and_query@, i) && rendered_from(
                r,
                rules@[i].response,
            ),
        !has_exact(rules@, method@, path_and_query@) && !has_generic(
            rules@,
            method@,
            path_and_query@,
        ) ==> is_not_found(r),
{
    match find_rule(rules, method, path_and_query) {
        Some(i) => render_response(&rules[i].response),
        None => not_found_response(),
    }
}

} // verus!
