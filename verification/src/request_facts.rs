//! What the rule language reads of a request: its address parts, method and headers.
use vstd::prelude::*;
use vstd::string::*;
use vstd::seq_lib::to_multiset_insert;
use crate::request_rules::{host_and_port, opt_str_ref_view, spec_host_and_port};

verus! {

/// `c` in ASCII lower case: `A` to `Z` become `a` to `z`, every other character stays.
pub open spec fn ascii_lower(c: char) -> char {
    if 'A' <= c && c <= 'Z' {
        ((c as int) + 32) as char
    } else {
        c
    }
}

/// `s` in ASCII lower case.
pub open spec fn ascii_lowercase(s: Seq<char>) -> Seq<char> {
    s.map_values(|c: char| ascii_lower(c))
}

/// `str::to_ascii_lowercase`: a copy of `s` in which `A` to `Z` are mapped to `a` to `z` and
/// every other character is kept.
#[verifier::external_body]
fn to_ascii_lowercase(s: &str) -> (r: String)
    ensures
        r@ == ascii_lowercase(s@),
{
    s.to_ascii_lowercase()
}

/// `a` orders before `b` or equals it, character by character, a prefix first (the order of
/// `String`: UTF-8 bytes order as their code points do).
pub open spec fn lex_le(a: Seq<char>, b: Seq<char>) -> bool
    decreases a.len(),
{
    if a.len() == 0 {
        true
    } else if b.len() == 0 {
        false
    } else if a[0] != b[0] {
        (a[0] as int) < (b[0] as int)
    } else {
        lex_le(a.drop_first(), b.drop_first())
    }
}

/// Every text orders with itself.
pub proof fn lemma_lex_refl(a: Seq<char>)
    ensures
        lex_le(a, a),
    decreases a.len(),
{
    if a.len() > 0 {
        lemma_lex_refl(a.drop_first());
    }
}

/// Any two texts are ordered one way or the other.
pub proof fn lemma_lex_total(a: Seq<char>, b: Seq<char>)
    ensures
        lex_le(a, b) || lex_le(b, a),
    decreases a.len(),
{
    if a.len() > 0 && b.len() > 0 && a[0] == b[0] {
        lemma_lex_total(a.drop_first(), b.drop_first());
    }
}

/// The order of texts is transitive.
pub proof fn lemma_lex_trans(a: Seq<char>, b: Seq<char>, c: Seq<char>)
    requires
        lex_le(a, b),
        lex_le(b, c),
    ensures
        lex_le(a, c),
    decreases a.len(),
{
    if a.len() > 0 && b.len() > 0 && c.len() > 0 && a[0] == b[0] && b[0] == c[0] {
        lemma_lex_trans(a.drop_first(), b.drop_first(), c.drop_first());
    }
}

/// Whether `a` orders before `b` or equals it.
fn text_le(a: &str, b: &str) -> (r: bool)
    ensures
        r == lex_le(a@, b@),
{
    let n = a.unicode_len();
    let m = b.unicode_len();
    let mut i: usize = 0;
    assert(a@.skip(0) =~= a@);
    assert(b@.skip(0) =~= b@);
    while i < n && i < m
        invariant
            n == a@.len(),
            m == b@.len(),
            i <= n,
            i <= m,
            lex_le(a@, b@) == lex_le(a@.skip(i as int), b@.skip(i as int)),
        decreases n - i,
    {
        let ca = a.get_char(i);
        let cb = b.get_char(i);
        assert(a@.skip(i as int)[0] == ca);
        assert(b@.skip(i as int)[0] == cb);
        if ca != cb {
            return ca < cb;
        }
        assert(a@.skip(i as int).drop_first() =~= a@.skip(i + 1));
        assert(b@.skip(i as int).drop_first() =~= b@.skip(i + 1));
        i = i + 1;
    }
    i == n
}

/// A header as text: its name and its value.
pub open spec fn header_view(h: (String, String)) -> (Seq<char>, Seq<char>) {
    (h.0@, h.1@)
}

/// Headers as text.
pub open spec fn headers_view(hs: Seq<(String, String)>) -> Seq<(Seq<char>, Seq<char>)> {
    hs.map_values(|h: (String, String)| header_view(h))
}

/// The headers with their names in ASCII lower case.
pub open spec fn lowercase_names(hs: Seq<(Seq<char>, Seq<char>)>) -> Seq<(Seq<char>, Seq<char>)> {
    hs.map_values(|h: (Seq<char>, Seq<char>)| (ascii_lowercase(h.0), h.1))
}

/// The headers stand in order of their names.
pub open spec fn names_sorted(hs: Seq<(Seq<char>, Seq<char>)>) -> bool {
    forall|i: int, j: int| 0 <= i < j < hs.len() ==> lex_le(#[trigger] hs[i].0, #[trigger] hs[j].0)
}

/// The test of whether a header is named `name`.
pub open spec fn named(name: Seq<char>) -> spec_fn((Seq<char>, Seq<char>)) -> bool {
    |h: (Seq<char>, Seq<char>)| h.0 == name
}

/// Headers of the same name stand in `r` in the order they stand in `v`.
pub open spec fn keeps_same_names_in_order(r: Seq<(Seq<char>, Seq<char>)>, v: Seq<(Seq<char>, Seq<char>)>) -> bool {
    forall|name: Seq<char>| #[trigger] r.filter(named(name)) == v.filter(named(name))
}

/// The value of the first header named `name`, if there is one.
pub open spec fn first_value_named(hs: Seq<(Seq<char>, Seq<char>)>, name: Seq<char>) -> Option<Seq<char>>
    decreases hs.len(),
{
    if hs.len() == 0 {
        None
    } else if hs[0].0 == name {
        Some(hs[0].1)
    } else {
        first_value_named(hs.drop_first(), name)
    }
}

/// The headers with their names in ASCII lower case, in the same order.
fn lowercase_header_names(headers: Vec<(String, String)>) -> (r: Vec<(String, String)>)
    ensures
        headers_view(r@) == lowercase_names(headers_view(headers@)),
{
    let ghost orig = headers@;
    let n = headers.len();
    let mut rest = headers;
    let mut out: Vec<(String, String)> = Vec::new();
    let mut i: usize = 0;
    while i < n
        invariant
            n == orig.len(),
            i <= n,
            rest@ == orig.skip(i as int),
            headers_view(out@) == lowercase_names(headers_view(orig.take(i as int))),
        decreases n - i,
    {
        let (name, value) = rest.remove(0);
        assert((name, value) == orig[i as int]);
        let lowered = to_ascii_lowercase(name.as_str());
        let ghost before = out@;
        out.push((lowered, value));
        assert(headers_view(out@) =~= headers_view(before).push(header_view(out@.last())));
        assert(headers_view(orig.take(i + 1)) =~= headers_view(orig.take(i as int)).push(header_view(orig[i as int])));
        assert(lowercase_names(headers_view(orig.take(i + 1))) =~= lowercase_names(
            headers_view(orig.take(i as int)),
        ).push((ascii_lowercase(name@), value@)));
        i = i + 1;
        assert(rest@ =~= orig.skip(i as int));
    }
    assert(orig.take(n as int) =~= orig);
    out
}

/// Where the header `x` goes into the name-ordered `out`: after every header whose name
/// orders before its own or equals it.
fn header_slot(out: &Vec<(String, String)>, x: &(String, String)) -> (pos: usize)
    requires
        names_sorted(headers_view(out@)),
    ensures
        pos <= out@.len(),
        forall|k: int| 0 <= k < pos ==> lex_le(#[trigger] out@[k].0@, x.0@),
        forall|k: int| pos <= k < out@.len() ==> !lex_le(#[trigger] out@[k].0@, x.0@),
{
    let n = out.len();
    let mut i: usize = 0;
    while i < n
        invariant
            n == out@.len(),
            i <= n,
            names_sorted(headers_view(out@)),
            forall|k: int| 0 <= k < i ==> lex_le(#[trigger] out@[k].0@, x.0@),
        decreases n - i,
    {
        if !text_le(out[i].0.as_str(), x.0.as_str()) {
            assert forall|m: int| i <= m < out@.len() implies !lex_le(#[trigger] out@[m].0@, x.0@) by {
                if m > i {
                    assert(headers_view(out@)[i as int].0 == out@[i as int].0@);
                    assert(headers_view(out@)[m].0 == out@[m].0@);
                    assert(lex_le(out@[i as int].0@, out@[m].0@));
                    if lex_le(out@[m].0@, x.0@) {
                        lemma_lex_trans(out@[i as int].0@, out@[m].0@, x.0@);
                    }
                }
            }
            return i;
        }
        i = i + 1;
    }
    i
}

/// Orders headers by name, keeping headers of the same name in the order they had.
fn sort_headers(v: Vec<(String, String)>) -> (r: Vec<(String, String)>)
    ensures
        names_sorted(headers_view(r@)),
        keeps_same_names_in_order(headers_view(r@), headers_view(v@)),
        headers_view(r@).to_multiset() == headers_view(v@).to_multiset(),
{
    let ghost orig = v@;
    let mut rest = v;
    let mut out: Vec<(String, String)> = Vec::new();
    let ghost mut taken: int = 0;
    assert(headers_view(orig.take(0)) =~= Seq::<(Seq<char>, Seq<char>)>::empty());
    assert(headers_view(out@) =~= Seq::<(Seq<char>, Seq<char>)>::empty());
    while rest.len() > 0
        invariant
            names_sorted(headers_view(out@)),
            0 <= taken <= orig.len(),
            rest@ == orig.skip(taken),
            headers_view(out@).to_multiset() == headers_view(orig.take(taken)).to_multiset(),
            keeps_same_names_in_order(headers_view(out@), headers_view(orig.take(taken))),
        decreases rest@.len(),
    {
        let x = rest.remove(0);
        assert(x == orig[taken]);
        let pos = header_slot(&out, &x);
        let ghost before = out@;
        let ghost hx = header_view(x);
        out.insert(pos, x);
        proof {
            let vb = headers_view(before);
            let vo = headers_view(out@);
            assert(vo =~= vb.insert(pos as int, hx));
            to_multiset_insert(vb, pos as int, hx);
            assert(headers_view(orig.take(taken + 1)) =~= headers_view(orig.take(taken)).push(hx));
            vstd::seq_lib::to_multiset_build(headers_view(orig.take(taken)), hx);
            assert forall|i: int, j: int| 0 <= i < j < vo.len() implies lex_le(
                #[trigger] vo[i].0,
                #[trigger] vo[j].0,
            ) by {
                if i < pos && j < pos {
                    assert(vo[i] == vb[i] && vo[j] == vb[j]);
                } else if i < pos && j == pos {
                    assert(vo[i].0 == before[i].0@);
                } else if i < pos {
                    assert(vo[i] == vb[i] && vo[j] == vb[j - 1]);
                } else if i == pos {
                    assert(vo[j] == vb[j - 1]);
                    assert(vb[j - 1].0 == before[j - 1].0@);
                    assert(!lex_le(before[j - 1].0@, hx.0));
                    lemma_lex_total(before[j - 1].0@, hx.0);
                } else {
                    assert(vo[i] == vb[i - 1] && vo[j] == vb[j - 1]);
                }
            }
            assert forall|name: Seq<char>| #[trigger] vo.filter(named(name)) == headers_view(orig.take(taken + 1)).filter(
                named(name),
            ) by {
                crate::capture_rules::lemma_filter_push(headers_view(orig.take(taken)), named(name), hx);
                if hx.0 == name {
                    assert forall|m: int| pos <= m < vb.len() implies !(named(name))(#[trigger] vb[m]) by {
                        assert(vb[m].0 == before[m].0@);
                        assert(!lex_le(before[m].0@, hx.0));
                        lemma_lex_refl(hx.0);
                    }
                    crate::sorting::lemma_filter_insert_kept(vb, pos as int, hx, named(name));
                } else {
                    crate::sorting::lemma_filter_insert_dropped(vb, pos as int, hx, named(name));
                }
            }
            taken = taken + 1;
            assert(rest@ =~= orig.skip(taken));
        }
    }
    assert(orig.take(taken) =~= orig);
    out
}

/// The position of the first header named `name`, if there is one.
fn find_header(headers: &Vec<(String, String)>, name: &str) -> (r: Option<usize>)
    ensures
        match r {
            Some(i) => i < headers@.len() && first_value_named(headers_view(headers@), name@) == Some(
                headers@[i as int].1@,
            ),
            None => first_value_named(headers_view(headers@), name@) is None,
        },
{
    let ghost hv = headers_view(headers@);
    let n = headers.len();
    let mut i: usize = 0;
    assert(hv.skip(0) =~= hv);
    while i < n
        invariant
            n == headers@.len(),
            hv == headers_view(headers@),
            i <= n,
            first_value_named(hv, name@) == first_value_named(hv.skip(i as int), name@),
        decreases n - i,
    {
        assert(hv.skip(i as int)[0] == header_view(headers@[i as int]));
        if crate::text::str_eq(headers[i].0.as_str(), name) {
            return Some(i);
        }
        assert(hv.skip(i as int).drop_first() =~= hv.skip(i + 1));
        i = i + 1;
    }
    None
}

/// What the rule language reads of a request.
pub struct RequestFacts {
    pub scheme: Option<String>,
    pub host: String,
    pub port: Option<u16>,
    pub path: String,
    pub query: Option<String>,
    pub method: String,
    pub headers: Vec<(String, String)>,
}

/// The facts of a request, from the parts of its URI, its method and its headers as text:
/// the host and port come from the URI when it names a host,
/// else from the first `host` header; header names are put in ASCII lower case and the
/// headers ordered by name.
pub fn request_facts_from_request(
    scheme: Option<String>,
    uri_host: Option<&str>,
    uri_port: Option<u16>,
    path: String,
    query: Option<String>,
    method: String,
    headers: Vec<(String, String)>,
) -> (r: RequestFacts)
    ensures
        r.scheme == scheme,
        r.path == path,
        r.query == query,
        r.method == method,
        (r.host@, r.port) == spec_host_and_port(
            opt_str_ref_view(uri_host),
            uri_port,
            first_value_named(lowercase_names(headers_view(headers@)), "host"@),
        ),
        names_sorted(headers_view(r.headers@)),
        keeps_same_names_in_order(headers_view(r.headers@), lowercase_names(headers_view(headers@))),
        headers_view(r.headers@).to_multiset() == lowercase_names(headers_view(headers@)).to_multiset(),
{
    let lowered = lowercase_header_names(headers);
    let found = find_header(&lowered, "host");
    let host_value: Option<&str> = match found {
        Some(i) => Some(lowered[i].1.as_str()),
        None => None,
    };
    let (host, port) = host_and_port(uri_host, uri_port, host_value);
    let sorted = sort_headers(lowered);
    RequestFacts { scheme, host, port, path, query, method, headers: sorted }
}

} // verus!
