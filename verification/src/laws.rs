use vstd::prelude::*;
use crate::agent::{agent_endpoint, check_pass_address};
use crate::catalog::catalog_endpoint;
use crate::health::{
    bool_text, checks_pairs, health_endpoint, join, lemma_join_push, param, query_text,
    service_params,
};
use crate::keystore::kv_endpoint;
use crate::form::{form_decode, form_encode, lemma_form_decode_encode, lemma_query_pairs_append, query_pairs};
use crate::request_url::{
    append_pairs, before_fragment, pairs_bytes, query_content, query_mark, with_query_pairs,
};
use vstd::utf8::{decode_utf8, encode_utf8, encode_utf8_decode_utf8};

verus! {

/// The agent's requests go to the addresses that the Consul HTTP API gives
/// them: `http://<address>/v1/agent/services`, `.../members`, `.../self`,
/// `.../check/register` and `.../check/pass/<id>`.
pub proof fn law_agent_addresses(address: Seq<char>, check_id: Seq<char>)
    ensures
        agent_endpoint(address) + "/services"@ == "http://"@ + address + "/v1/agent/services"@,
        agent_endpoint(address) + "/members"@ == "http://"@ + address + "/v1/agent/members"@,
        agent_endpoint(address) + "/self"@ == "http://"@ + address + "/v1/agent/self"@,
        agent_endpoint(address) + "/check/register"@ == "http://"@ + address
            + "/v1/agent/check/register"@,
        check_pass_address(agent_endpoint(address), check_id, None) == "http://"@ + address
            + "/v1/agent/check/pass/"@ + check_id,
{
    reveal_strlit("http://");
    reveal_strlit("/v1/agent");
    reveal_strlit("/services");
    reveal_strlit("/members");
    reveal_strlit("/self");
    reveal_strlit("/check/register");
    reveal_strlit("/check/pass/");
    reveal_strlit("/v1/agent/services");
    reveal_strlit("/v1/agent/members");
    reveal_strlit("/v1/agent/self");
    reveal_strlit("/v1/agent/check/register");
    reveal_strlit("/v1/agent/check/pass/");
    assert(agent_endpoint(address) + "/services"@ =~= "http://"@ + address + "/v1/agent/services"@);
    assert(agent_endpoint(address) + "/members"@ =~= "http://"@ + address + "/v1/agent/members"@);
    assert(agent_endpoint(address) + "/self"@ =~= "http://"@ + address + "/v1/agent/self"@);
    assert(agent_endpoint(address) + "/check/register"@ =~= "http://"@ + address
        + "/v1/agent/check/register"@);
    assert(check_pass_address(agent_endpoint(address), check_id, None) =~= "http://"@ + address
        + "/v1/agent/check/pass/"@ + check_id);
}

/// A note rides on a check-pass request as the query `?note=<note>` after the
/// address without a note.
pub proof fn law_check_pass_note(endpoint: Seq<char>, check_id: Seq<char>, note: Seq<char>)
    ensures
        check_pass_address(endpoint, check_id, Some(note)) == check_pass_address(
            endpoint,
            check_id,
            None,
        ) + "?note="@ + note,
{
}

/// The agent, catalog and health endpoints of one address differ only in
/// their last segment, and the key-value endpoint is the address itself
/// followed by `/v1/kv`.
pub proof fn law_endpoints(address: Seq<char>)
    ensures
        agent_endpoint(address) == "http://"@ + address + "/v1"@ + "/agent"@,
        catalog_endpoint(address) == "http://"@ + address + "/v1"@ + "/catalog"@,
        health_endpoint(address) == "http://"@ + address + "/v1"@ + "/health"@,
        kv_endpoint(address) == address + "/v1"@ + "/kv"@,
{
    reveal_strlit("/v1");
    reveal_strlit("/agent");
    reveal_strlit("/catalog");
    reveal_strlit("/health");
    reveal_strlit("/kv");
    reveal_strlit("/v1/agent");
    reveal_strlit("/v1/catalog");
    reveal_strlit("/v1/health");
    reveal_strlit("/v1/kv");
    assert(agent_endpoint(address) =~= "http://"@ + address + "/v1"@ + "/agent"@);
    assert(catalog_endpoint(address) =~= "http://"@ + address + "/v1"@ + "/catalog"@);
    assert(health_endpoint(address) =~= "http://"@ + address + "/v1"@ + "/health"@);
    assert(kv_endpoint(address) =~= address + "/v1"@ + "/kv"@);
}

/// Without parameters a health query for a service adds nothing to its URL.
pub proof fn law_service_query_empty()
    ensures
        query_text(service_params(None, None, None, None)) == Seq::<char>::empty(),
{
    assert(service_params(None, None, None, None) =~= Seq::<Seq<char>>::empty());
}

/// With every parameter given, a health query for a service reads
/// `?dc=<dc>&near=<near>&tag=<tag>&passing=<true|false>`.
pub proof fn law_service_query_full(dc: Seq<char>, near: Seq<char>, tag: Seq<char>, passing: bool)
    ensures
        query_text(service_params(Some(dc), Some(near), Some(tag), Some(passing))) == "?"@
            + "dc="@ + dc + "&"@ + "near="@ + near + "&"@ + "tag="@ + tag + "&"@ + "passing="@
            + bool_text(passing),
{
    let p0 = Seq::<Seq<char>>::empty();
    let p1 = p0.push("dc="@ + dc);
    let p2 = p1.push("near="@ + near);
    let p3 = p2.push("tag="@ + tag);
    let p4 = p3.push("passing="@ + bool_text(passing));
    assert(service_params(Some(dc), Some(near), Some(tag), Some(passing)) =~= p4);
    lemma_join_push(p0, "&"@, "dc="@ + dc);
    lemma_join_push(p1, "&"@, "near="@ + near);
    lemma_join_push(p2, "&"@, "tag="@ + tag);
    lemma_join_push(p3, "&"@, "passing="@ + bool_text(passing));
    assert(query_text(p4) =~= "?"@ + "dc="@ + dc + "&"@ + "near="@ + near + "&"@ + "tag="@ + tag
        + "&"@ + "passing="@ + bool_text(passing));
}

/// A health query for a service with one parameter given reads
/// `?<key>=<value>`, with no separator.
pub proof fn law_service_query_single(tag: Seq<char>)
    ensures
        query_text(service_params(None, None, Some(tag), None)) == "?"@ + "tag="@ + tag,
{
    assert(service_params(None, None, Some(tag), None) =~= seq!["tag="@ + tag]);
}

/// Each parameter given adds one part to a health query for a service, in
/// the fixed order: the query is never empty once one parameter is given.
pub proof fn law_service_query_nonempty(
    dc: Option<Seq<char>>,
    near: Option<Seq<char>>,
    tag: Option<Seq<char>>,
    passing: Option<bool>,
)
    ensures
        service_params(dc, near, tag, passing).len() == (if dc is Some { 1int } else { 0 }) + (
        if near is Some {
            1int
        } else {
            0
        }) + (if tag is Some {
            1int
        } else {
            0
        }) + (if passing is Some {
            1int
        } else {
            0
        }),
        (dc is Some || near is Some || tag is Some || passing is Some) ==> query_text(
            service_params(dc, near, tag, passing),
        ).len() > 0,
{
    reveal_strlit("?");
}

/// A request for checks without parameters has no query pairs (the URL still
/// gets an empty query opened).
pub proof fn law_checks_pairs_empty()
    ensures
        checks_pairs(None, None, None) == Seq::<(Seq<char>, Seq<char>)>::empty(),
{
    assert(checks_pairs(None, None, None) =~= Seq::<(Seq<char>, Seq<char>)>::empty());
}

/// Form decoding gives back the text that form encoding was given (through
/// its UTF-8 bytes).
pub proof fn law_form_round_trip(text: Seq<char>)
    ensures
        decode_utf8(form_decode(form_encode(encode_utf8(text)))) == text,
{
    lemma_form_decode_encode(encode_utf8(text));
    encode_utf8_decode_utf8(text);
}

/// Appending query pairs to a URL keeps the URL before its query (scheme,
/// host, path) as it was and puts a `?` after it; the query then reads as the
/// pairs it had followed by the new pairs, in order, each exactly as given.
pub proof fn law_query_pairs_read_back(url: Seq<u8>, pairs: Seq<(Seq<u8>, Seq<u8>)>)
    ensures
        with_query_pairs(url, pairs).take(query_mark(url)) == before_fragment(url).take(
            query_mark(url),
        ),
        with_query_pairs(url, pairs)[query_mark(url)] == 0x3fu8,
        with_query_pairs(url, pairs).skip(query_mark(url) + 1).take(
            append_pairs(query_content(url), pairs).len() as int,
        ) == append_pairs(query_content(url), pairs),
        query_pairs(append_pairs(query_content(url), pairs)) == query_pairs(query_content(url))
            + pairs,
{
    crate::request_url::lemma_first_index_bound(before_fragment(url), 0x3f);
    crate::request_url::lemma_first_index_bound(url, 0x23);
    let r = with_query_pairs(url, pairs);
    let head = before_fragment(url).take(query_mark(url));
    let q = append_pairs(query_content(url), pairs);
    assert(r.take(query_mark(url)) =~= head);
    assert(r.skip(query_mark(url) + 1).take(q.len() as int) =~= q);
    lemma_query_pairs_append(query_content(url), pairs);
}

/// The query of a request for checks, added to a URL without a query, reads
/// back as `dc`, `near` and `passing` (those given, in that order), each name
/// and value decoding to the text given.
pub proof fn law_checks_query_reads_back(
    dc: Option<Seq<char>>,
    near: Option<Seq<char>>,
    passing: Option<bool>,
)
    ensures
        ({
            let cp = checks_pairs(dc, near, passing);
            let read = query_pairs(append_pairs(Seq::empty(), pairs_bytes(cp)));
            &&& read.len() == cp.len()
            &&& forall|i: int|
                0 <= i < cp.len() ==> decode_utf8(#[trigger] read[i].0) == cp[i].0 && decode_utf8(
                    read[i].1,
                ) == cp[i].1
        }),
{
    let cp = checks_pairs(dc, near, passing);
    let pb = pairs_bytes(cp);
    lemma_query_pairs_append(Seq::empty(), pb);
    assert(query_pairs(Seq::<u8>::empty()) =~= Seq::<(Seq<u8>, Seq<u8>)>::empty());
    let read = query_pairs(append_pairs(Seq::empty(), pb));
    assert(read =~= pb);
    assert forall|i: int| 0 <= i < cp.len() implies decode_utf8(#[trigger] read[i].0) == cp[i].0
        && decode_utf8(read[i].1) == cp[i].1 by {
        encode_utf8_decode_utf8(cp[i].0);
        encode_utf8_decode_utf8(cp[i].1);
    }
}

/// Adding one parameter to a query: a `?` and the parameter where the query
/// was empty, else the query, a `&` and the parameter.
proof fn lemma_query_text_push(params: Seq<Seq<char>>, p: Seq<char>)
    ensures
        query_text(params.push(p)) == if params.len() == 0 {
            "?"@ + p
        } else {
            query_text(params) + "&"@ + p
        },
{
    lemma_join_push(params, "&"@, p);
    if params.len() > 0 {
        assert(query_text(params.push(p)) =~= query_text(params) + "&"@ + p);
    }
}

/// The health query for a service, built one parameter at a time: no
/// parameter gives no query; `dc` alone gives `?dc=<dc>`; and giving `near`,
/// then `tag`, then `passing` (each after those before it) appends
/// `near=<near>`, `tag=<tag>`, `passing=true` or `passing=false`, with the
/// value exactly as given, after a `?` where nothing came before it and after
/// a `&` otherwise.  Whatever the other parameters are, none of them changes
/// or drops another.
pub proof fn law_service_query_steps(
    dc: Option<Seq<char>>,
    near: Option<Seq<char>>,
    tag: Option<Seq<char>>,
    d: Seq<char>,
    n: Seq<char>,
    t: Seq<char>,
    p: bool,
)
    ensures
        query_text(service_params(None, None, None, None)) == Seq::<char>::empty(),
        query_text(service_params(Some(d), None, None, None)) == "?"@ + "dc="@ + d,
        query_text(service_params(dc, Some(n), None, None)) == (if dc is None {
            "?"@
        } else {
            query_text(service_params(dc, None, None, None)) + "&"@
        }) + "near="@ + n,
        query_text(service_params(dc, near, Some(t), None)) == (if dc is None && near is None {
            "?"@
        } else {
            query_text(service_params(dc, near, None, None)) + "&"@
        }) + "tag="@ + t,
        query_text(service_params(dc, near, tag, Some(p))) == (if dc is None && near is None
            && tag is None {
            "?"@
        } else {
            query_text(service_params(dc, near, tag, None)) + "&"@
        }) + "passing="@ + (if p {
            "true"@
        } else {
            "false"@
        }),
{
    let none = Seq::<Seq<char>>::empty();
    assert(service_params(None, None, None, None) =~= none);
    assert(query_text(none) =~= Seq::<char>::empty());
    assert(service_params(Some(d), None, None, None) =~= none.push("dc="@ + d));
    lemma_query_text_push(none, "dc="@ + d);
    assert("?"@ + ("dc="@ + d) =~= "?"@ + "dc="@ + d);

    let a = service_params(dc, None, None, None);
    assert(service_params(dc, Some(n), None, None) =~= a.push("near="@ + n));
    lemma_query_text_push(a, "near="@ + n);
    assert(a.len() == 0 <==> dc is None);
    assert("?"@ + ("near="@ + n) =~= "?"@ + "near="@ + n);
    assert(query_text(a) + "&"@ + ("near="@ + n) =~= query_text(a) + "&"@ + "near="@ + n);

    let b = service_params(dc, near, None, None);
    assert(service_params(dc, near, Some(t), None) =~= b.push("tag="@ + t));
    lemma_query_text_push(b, "tag="@ + t);
    assert(b.len() == 0 <==> (dc is None && near is None));
    assert("?"@ + ("tag="@ + t) =~= "?"@ + "tag="@ + t);
    assert(query_text(b) + "&"@ + ("tag="@ + t) =~= query_text(b) + "&"@ + "tag="@ + t);

    let c = service_params(dc, near, tag, None);
    let v = if p {
        "true"@
    } else {
        "false"@
    };
    assert(bool_text(p) == v);
    assert(service_params(dc, near, tag, Some(p)) =~= c.push("passing="@ + v));
    lemma_query_text_push(c, "passing="@ + v);
    assert(c.len() == 0 <==> (dc is None && near is None && tag is None));
    assert("?"@ + ("passing="@ + v) =~= "?"@ + "passing="@ + v);
    assert(query_text(c) + "&"@ + ("passing="@ + v) =~= query_text(c) + "&"@ + "passing="@ + v);
}

/// The health query for a service holds one `key=value` part per parameter
/// given, in the order `dc`, `near`, `tag`, `passing`: it is
/// `?dc=<d>&near=<n>&tag=<t>` for those three, and every given parameter
/// stands with its value as given.
pub proof fn law_service_query_three(d: Seq<char>, n: Seq<char>, t: Seq<char>)
    ensures
        query_text(service_params(Some(d), Some(n), Some(t), None)) == "?"@ + "dc="@ + d + "&"@
            + "near="@ + n + "&"@ + "tag="@ + t,
{
    law_service_query_steps(Some(d), Some(n), None, d, n, t, true);
    law_service_query_steps(Some(d), None, None, d, n, t, true);
}

/// The query pairs of a request for checks, built one filter at a time: none
/// gives no pair; `dc` alone gives `("dc", dc)`; and giving `near`, then
/// `passing` (whatever came before) appends `("near", near)`, then
/// `("passing", "true")` or `("passing", "false")`, with the value exactly as
/// given.  No filter changes or drops another.
pub proof fn law_checks_pairs_steps(
    dc: Option<Seq<char>>,
    near: Option<Seq<char>>,
    d: Seq<char>,
    n: Seq<char>,
    p: bool,
)
    ensures
        checks_pairs(None, None, None) == Seq::<(Seq<char>, Seq<char>)>::empty(),
        checks_pairs(Some(d), None, None) == seq![("dc"@, d)],
        checks_pairs(dc, Some(n), None) == checks_pairs(dc, None, None).push(("near"@, n)),
        checks_pairs(dc, near, Some(p)) == checks_pairs(dc, near, None).push(
            (
                "passing"@,
                if p {
                    "true"@
                } else {
                    "false"@
                },
            ),
        ),
        checks_pairs(dc, near, Some(p)).len() == (if dc is Some {
            1int
        } else {
            0
        }) + (if near is Some {
            1int
        } else {
            0
        }) + 1,
{
    assert(checks_pairs(None, None, None) =~= Seq::<(Seq<char>, Seq<char>)>::empty());
    assert(checks_pairs(Some(d), None, None) =~= seq![("dc"@, d)]);
    assert(checks_pairs(dc, Some(n), None) =~= checks_pairs(dc, None, None).push(("near"@, n)));
    let v = if p {
        "true"@
    } else {
        "false"@
    };
    assert(bool_text(p) == v);
    assert(checks_pairs(dc, near, Some(p)) =~= checks_pairs(dc, near, None).push(("passing"@, v)));
}

} // verus!
