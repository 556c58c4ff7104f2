use vstd::prelude::*;
use hyper::Url;
use hyper::error::ParseError;
use crate::consul_error::ConsulError;
use crate::form::{form_encode, encode_byte, lemma_form_encode_concat};
use vstd::utf8::encode_utf8;

verus! {

#[verifier::external_type_specification]
#[verifier::external_body]
pub struct ExUrl(hyper::Url);

#[verifier::external_type_specification]
#[verifier::external_body]
pub struct ExParseError(hyper::error::ParseError);

/// A parsed URL together with its serialization.
///
/// Only the trusted items of this module build one, and each of them stores in
/// `text` what `Url::as_str` returns for `url`.
pub struct RequestUrl {
    url: Url,
    text: String,
}

impl View for RequestUrl {
    type V = Seq<char>;

    /// The serialization of the URL.
    closed spec fn view(&self) -> Seq<char> {
        self.text@
    }
}

/// Names what `Url::parse` gives for `input`: the serialization of the parsed
/// URL, or `None` where parsing fails.
pub uninterp spec fn parsed_url(input: Seq<char>) -> Option<Seq<char>>;

/// Calls `Url::parse`.  Claimed: it succeeds exactly where [`parsed_url`] is
/// `Some`, and then the serialization of the URL (`Url::as_str`) is what that
/// name holds.  Of the error value nothing is claimed.
#[verifier::external_body]
pub(crate) fn parse_url(input: &str) -> (r: Result<RequestUrl, ParseError>)
    ensures
        match r {
            Ok(u) => parsed_url(input@) == Some(u@),
            Err(_) => parsed_url(input@) is None,
        },
{
    let url = Url::parse(input)?;
    let text = url.as_str().to_string();
    Ok(RequestUrl { url, text })
}

/// What a request for `address` comes to: the URL that `address` parses to, or
/// `BadURL` where it does not parse.
pub open spec fn url_outcome(r: Result<RequestUrl, ConsulError>, address: Seq<char>) -> bool {
    match parsed_url(address) {
        Some(u) => r matches Ok(v) && v@ == u,
        None => r == Err::<RequestUrl, ConsulError>(ConsulError::BadURL),
    }
}

/// Parses the address of a request; an address that is no URL is a `BadURL`.
pub fn request_url(address: &str) -> (r: Result<RequestUrl, ConsulError>)
    ensures
        url_outcome(r, address@),
{
    match parse_url(address) {
        Ok(u) => Ok(u),
        Err(_) => Err(ConsulError::BadURL),
    }
}

/// The index of the first `b` in `s`, or the length of `s` where there is none.
pub open spec fn first_index(s: Seq<u8>, b: u8) -> int
    decreases s.len(),
{
    if s.len() == 0 {
        0
    } else if s[0] == b {
        0
    } else {
        1 + first_index(s.drop_first(), b)
    }
}

/// Where the fragment of a serialized URL starts: at its first `#` (the
/// serialization percent-encodes `#` everywhere before the fragment).
pub open spec fn fragment_at(url: Seq<u8>) -> int {
    first_index(url, 0x23)
}

/// A serialized URL without its fragment.
pub open spec fn before_fragment(url: Seq<u8>) -> Seq<u8> {
    url.take(fragment_at(url))
}

/// Where the query of a serialized URL starts: at its first `?` before the
/// fragment (the serialization percent-encodes `?` before the query), or at
/// the fragment where there is no query.
pub open spec fn query_mark(url: Seq<u8>) -> int {
    first_index(before_fragment(url), 0x3f)
}

/// A serialized URL up to its query's `?` included; a `?` is added where the
/// URL has no query.
pub open spec fn query_head(url: Seq<u8>) -> Seq<u8> {
    before_fragment(url).take(query_mark(url)) + seq![0x3fu8]
}

/// The query of a serialized URL, after its `?`; nothing where there is none.
pub open spec fn query_content(url: Seq<u8>) -> Seq<u8> {
    if query_mark(url) < before_fragment(url).len() {
        before_fragment(url).skip(query_mark(url) + 1)
    } else {
        Seq::empty()
    }
}

/// A name and a value, form-encoded and joined by `=`.
pub open spec fn encoded_pair(p: (Seq<u8>, Seq<u8>)) -> Seq<u8> {
    form_encode(p.0) + seq![0x3du8] + form_encode(p.1)
}

/// The query `query` with `pairs` appended in order, each as [`encoded_pair`],
/// after a `&` where the query is not empty at that point.
pub open spec fn append_pairs(query: Seq<u8>, pairs: Seq<(Seq<u8>, Seq<u8>)>) -> Seq<u8>
    decreases pairs.len(),
{
    if pairs.len() == 0 {
        query
    } else {
        let q = append_pairs(query, pairs.drop_last());
        let sep = if q.len() > 0 {
            seq![0x26u8]
        } else {
            Seq::<u8>::empty()
        };
        q + sep + encoded_pair(pairs.last())
    }
}

/// The serialization (as bytes) of the URL serialized as `url` once `pairs`
/// are appended to its query: the URL up to its query (a `?` opened where
/// there was none), the query with the pairs appended, then the fragment.
pub open spec fn with_query_pairs(url: Seq<u8>, pairs: Seq<(Seq<u8>, Seq<u8>)>) -> Seq<u8> {
    query_head(url) + append_pairs(query_content(url), pairs) + url.skip(fragment_at(url))
}

/// Names and values as their UTF-8 bytes.
pub open spec fn pairs_bytes(pairs: Seq<(Seq<char>, Seq<char>)>) -> Seq<(Seq<u8>, Seq<u8>)> {
    pairs.map_values(|p: (Seq<char>, Seq<char>)| (encode_utf8(p.0), encode_utf8(p.1)))
}

/// Appending `pairs` to the query of the URL serialized (as bytes) as `url`
/// keeps within `u32` the two offsets that `Url` converts with a panic on
/// overflow: the start of a query it opens, and the start of the fragment it
/// puts back.
pub open spec fn query_fits(url: Seq<u8>, pairs: Seq<(Seq<u8>, Seq<u8>)>) -> bool {
    &&& query_mark(url) == before_fragment(url).len() ==> before_fragment(url).len() <= u32::MAX
    &&& fragment_at(url) < url.len() ==> (query_head(url) + append_pairs(query_content(url), pairs)).len()
        <= u32::MAX
}

/// Calls `Url::query_pairs_mut` and `Serializer::extend_pairs` (the fragment is
/// put back when the serializer is dropped).  Claimed: the UTF-8 bytes of the
/// new serialization are [`with_query_pairs`] of the old one and `pairs`: a
/// query is opened where there is none, each pair is appended form-encoded
/// after a `&` where the query is not empty, and the fragment comes last.  The
/// `requires` leaves out the URLs on which `Url` would overflow its `u32`
/// offsets and panic.
#[verifier::external_body]
pub(crate) fn extend_query_pairs(url: RequestUrl, pairs: &Vec<(String, String)>) -> (r: RequestUrl)
    requires
        query_fits(encode_utf8(url@), pairs_bytes(pairs.deep_view())),
    ensures
        encode_utf8(r@) == with_query_pairs(encode_utf8(url@), pairs_bytes(pairs.deep_view())),
{
    let mut u = url.url;
    u.query_pairs_mut().extend_pairs(pairs.iter());
    let text = u.as_str().to_string();
    RequestUrl { url: u, text }
}

/// The form encoding of one byte is its encoding.
proof fn lemma_form_encode_single(b: u8)
    ensures
        form_encode(seq![b]) == encode_byte(b),
{
    assert(seq![b].drop_first() =~= Seq::<u8>::empty());
    assert(form_encode(Seq::<u8>::empty()) =~= Seq::<u8>::empty());
    assert(form_encode(seq![b]) =~= encode_byte(b));
}

/// `first_index` lies within the sequence.
pub proof fn lemma_first_index_bound(s: Seq<u8>, b: u8)
    ensures
        0 <= first_index(s, b) <= s.len(),
    decreases s.len(),
{
    if s.len() > 0 {
        lemma_first_index_bound(s.drop_first(), b);
    }
}

/// `first_index` is the first position holding `b`.
pub proof fn lemma_first_index(s: Seq<u8>, b: u8, i: int)
    requires
        0 <= i <= s.len(),
        forall|j: int| 0 <= j < i ==> s[j] != b,
        i == s.len() || s[i] == b,
    ensures
        first_index(s, b) == i,
    decreases i,
{
    if i > 0 {
        lemma_first_index(s.drop_first(), b, i - 1);
    }
}

/// The index of the first `b` among the first `end` bytes of `s`, or `end`.
fn find_byte(s: &[u8], b: u8, end: usize) -> (r: usize)
    requires
        end <= s@.len(),
    ensures
        r == first_index(s@.take(end as int), b),
        r <= end,
{
    let mut i: usize = 0;
    while i < end
        invariant
            end <= s@.len(),
            i <= end,
            forall|j: int| 0 <= j < i ==> s@[j] != b,
        decreases end - i,
    {
        if s[i] == b {
            proof {
                lemma_first_index(s@.take(end as int), b, i as int);
            }
            return i;
        }
        i = i + 1;
    }
    proof {
        lemma_first_index(s@.take(end as int), b, end as int);
    }
    end
}

/// The length of the form encoding of the byte `b`.
fn encoded_byte_len(b: u8) -> (r: u64)
    ensures
        r == encode_byte(b).len(),
{
    if b == 0x2a || b == 0x2d || b == 0x2e || (0x30 <= b && b <= 0x39) || (0x41 <= b && b <= 0x5a)
        || b == 0x5f || (0x61 <= b && b <= 0x7a) {
        1
    } else if b == 0x20 {
        1
    } else {
        3
    }
}

/// The length of the form encoding of `bs`, or `u32::MAX + 1` where it is
/// longer than `u32::MAX`.
fn encoded_len_capped(bs: &[u8]) -> (r: u64)
    ensures
        form_encode(bs@).len() <= u32::MAX ==> r == form_encode(bs@).len(),
        form_encode(bs@).len() > u32::MAX ==> r == u32::MAX + 1,
{
    let mut count: u64 = 0;
    let mut i: usize = 0;
    proof {
        assert(bs@.take(0) =~= Seq::<u8>::empty());
    }
    while i < bs.len()
        invariant
            i <= bs@.len(),
            count == form_encode(bs@.take(i as int)).len(),
            count <= u32::MAX,
        decreases bs@.len() - i,
    {
        proof {
            assert(bs@.take(i + 1) =~= bs@.take(i as int) + seq![bs@[i as int]]);
            lemma_form_encode_concat(bs@.take(i as int), seq![bs@[i as int]]);
            lemma_form_encode_single(bs@[i as int]);
        }
        count = count + encoded_byte_len(bs[i]);
        i = i + 1;
        if count > 0xffff_ffff {
            proof {
                assert(bs@ =~= bs@.take(i as int) + bs@.skip(i as int));
                lemma_form_encode_concat(bs@.take(i as int), bs@.skip(i as int));
            }
            return 0x1_0000_0000;
        }
    }
    proof {
        assert(bs@.take(bs@.len() as int) =~= bs@);
    }
    count
}

/// Appending more pairs never shortens the query.
proof fn lemma_append_pairs_grows(query: Seq<u8>, pairs: Seq<(Seq<u8>, Seq<u8>)>, n: int)
    requires
        0 <= n <= pairs.len(),
    ensures
        append_pairs(query, pairs.take(n)).len() <= append_pairs(query, pairs).len(),
    decreases pairs.len() - n,
{
    if n < pairs.len() {
        lemma_append_pairs_grows(query, pairs, n + 1);
        assert(pairs.take(n + 1).drop_last() =~= pairs.take(n));
    } else {
        assert(pairs.take(n) =~= pairs);
    }
}

/// Whether [`query_fits`] holds for `url` and `pairs`: whether `Url` can
/// append `pairs` to the query of `url` without a panic.
pub fn query_pairs_fit(url: &RequestUrl, pairs: &Vec<(String, String)>) -> (r: bool)
    ensures
        r == query_fits(encode_utf8(url@), pairs_bytes(pairs.deep_view())),
{
    let bytes = url.as_str().as_bytes();
    let ghost u = encode_utf8(url@);
    let ghost pb = pairs_bytes(pairs.deep_view());
    assert(bytes@ == u);
    assert(bytes@.take(bytes@.len() as int) =~= bytes@);
    let frag = find_byte(bytes, 0x23, bytes.len());
    let mark = find_byte(bytes, 0x3f, frag);
    if mark == frag && frag > 0xffff_ffff {
        return false;
    }
    if frag == bytes.len() {
        return true;
    }
    let head: u128 = mark as u128 + 1;
    proof {
        assert(before_fragment(u) =~= bytes@.take(frag as int));
        assert(query_head(u).len() == head);
    }
    if head > 0xffff_ffff {
        proof {
            assert((query_head(u) + append_pairs(query_content(u), pb)).len() >= head);
        }
        return false;
    }
    let mut qlen: u64 = if mark < frag {
        (frag - mark - 1) as u64
    } else {
        0
    };
    proof {
        assert(query_content(u).len() == qlen);
        assert(pb.take(0) =~= Seq::<(Seq<u8>, Seq<u8>)>::empty());
        assert(fragment_at(u) < u.len());
    }
    if head + qlen as u128 > 0xffff_ffff {
        proof {
            lemma_append_pairs_grows(query_content(u), pb, 0);
        }
        return false;
    }
    let mut i: usize = 0;
    while i < pairs.len()
        invariant
            u == encode_utf8(url@),
            pb == pairs_bytes(pairs.deep_view()),
            pb.len() == pairs@.len(),
            i <= pairs@.len(),
            head == query_head(u).len(),
            head <= u32::MAX,
            fragment_at(u) < u.len(),
            qlen == append_pairs(query_content(u), pb.take(i as int)).len(),
            head + qlen <= u32::MAX,
        decreases pairs@.len() - i,
    {
        assert(pb[i as int] == (encode_utf8(pairs@[i as int].0@), encode_utf8(pairs@[i as int].1@)));
        let k = encoded_len_capped(pairs[i].0.as_str().as_bytes());
        let v = encoded_len_capped(pairs[i].1.as_str().as_bytes());
        let sep: u64 = if qlen > 0 {
            1
        } else {
            0
        };
        let grown: u128 = qlen as u128 + sep as u128 + k as u128 + 1 + v as u128;
        proof {
            assert(pb.take(i + 1).drop_last() =~= pb.take(i as int));
            assert(pb.take(i + 1).last() == pb[i as int]);
            lemma_append_pairs_grows(query_content(u), pb, i + 1);
            assert(append_pairs(query_content(u), pb.take(i + 1)).len() >= grown);
        }
        if head + grown > 0xffff_ffff {
            return false;
        }
        qlen = grown as u64;
        i = i + 1;
    }
    proof {
        assert(pb.take(pairs@.len() as int) =~= pb);
    }
    true
}

impl RequestUrl {
    /// The parsed URL held.
    pub closed spec fn parsed(&self) -> Url {
        self.url
    }

    /// The parsed URL, for sending.
    pub fn url(&self) -> (r: &Url)
        ensures
            r == &self.parsed(),
    {
        &self.url
    }

    /// The serialization of the URL.
    pub fn as_str(&self) -> (r: &str)
        ensures
            r@ == self@,
    {
        self.text.as_str()
    }

    /// The URL, for sending.
    pub fn into_url(self) -> (r: Url)
        ensures
            r == self.parsed(),
    {
        self.url
    }
}

} // verus!
