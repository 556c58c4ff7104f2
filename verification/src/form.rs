use vstd::prelude::*;
use crate::request_url::{append_pairs, encoded_pair, first_index, lemma_first_index};

verus! {

/// The bytes that form encoding leaves as they are: ASCII letters and digits
/// and `*`, `-`, `.`, `_`.
pub open spec fn byte_unchanged(b: u8) -> bool {
    ||| b == 0x2a
    ||| b == 0x2d
    ||| b == 0x2e
    ||| 0x30 <= b <= 0x39
    ||| 0x41 <= b <= 0x5a
    ||| b == 0x5f
    ||| 0x61 <= b <= 0x7a
}

/// The uppercase hexadecimal digit (ASCII) of `n`, for `n < 16`.
pub open spec fn hex_upper(n: u8) -> u8 {
    if n < 10 {
        (0x30 + n) as u8
    } else {
        (0x41 + n - 10) as u8
    }
}

/// Form encoding of one byte: the byte itself where it is left as it is, `+`
/// for a space, and `%` with two uppercase hexadecimal digits otherwise.
pub open spec fn encode_byte(b: u8) -> Seq<u8> {
    if byte_unchanged(b) {
        seq![b]
    } else if b == 0x20 {
        seq![0x2bu8]
    } else {
        seq![0x25u8, hex_upper(b / 16), hex_upper(b % 16)]
    }
}

/// Form encoding (`application/x-www-form-urlencoded`) of `bs`, byte by byte.
pub open spec fn form_encode(bs: Seq<u8>) -> Seq<u8>
    decreases bs.len(),
{
    if bs.len() == 0 {
        Seq::empty()
    } else {
        encode_byte(bs[0]) + form_encode(bs.drop_first())
    }
}

/// The value of the hexadecimal digit `d` (either case), if it is one.
pub open spec fn hex_value(d: u8) -> Option<u8> {
    if 0x30 <= d <= 0x39 {
        Some((d - 0x30) as u8)
    } else if 0x41 <= d <= 0x46 {
        Some((d - 0x41 + 10) as u8)
    } else if 0x61 <= d <= 0x66 {
        Some((d - 0x61 + 10) as u8)
    } else {
        None
    }
}

/// Form decoding of `s`: `+` is a space, `%` with two hexadecimal digits is
/// the byte they write, any other byte stands for itself.
pub open spec fn form_decode(s: Seq<u8>) -> Seq<u8>
    decreases s.len(),
{
    if s.len() == 0 {
        Seq::empty()
    } else if s[0] == 0x2b {
        seq![0x20u8] + form_decode(s.drop_first())
    } else if s[0] == 0x25 && s.len() >= 3 && hex_value(s[1]) is Some && hex_value(s[2]) is Some {
        seq![(hex_value(s[1])->0 * 16 + hex_value(s[2])->0) as u8] + form_decode(s.skip(3))
    } else {
        seq![s[0]] + form_decode(s.drop_first())
    }
}

/// The bytes that a form encoding is made of: none is `&`, `=` or `#`.
pub open spec fn encoded_byte(b: u8) -> bool {
    byte_unchanged(b) || b == 0x2b || b == 0x25 || 0x30 <= b <= 0x39 || 0x41 <= b <= 0x46
}

/// Encoding a concatenation encodes each part.
pub proof fn lemma_form_encode_concat(a: Seq<u8>, b: Seq<u8>)
    ensures
        form_encode(a + b) == form_encode(a) + form_encode(b),
    decreases a.len(),
{
    if a.len() == 0 {
        assert(a + b =~= b);
        assert(form_encode(a) =~= Seq::<u8>::empty());
        assert(form_encode(a) + form_encode(b) =~= form_encode(b));
    } else {
        assert((a + b).drop_first() =~= a.drop_first() + b);
        lemma_form_encode_concat(a.drop_first(), b);
        assert(form_encode(a + b) =~= form_encode(a) + form_encode(b));
    }
}

/// Every byte of a form encoding is one that encoding writes.
pub proof fn lemma_form_encode_bytes(bs: Seq<u8>)
    ensures
        forall|i: int| 0 <= i < form_encode(bs).len() ==> encoded_byte(#[trigger] form_encode(bs)[i]),
    decreases bs.len(),
{
    if bs.len() > 0 {
        lemma_form_encode_bytes(bs.drop_first());
        let b = bs[0];
        let head = encode_byte(b);
        assert(forall|i: int| 0 <= i < head.len() ==> encoded_byte(#[trigger] head[i])) by {
            if !byte_unchanged(b) && b != 0x20 {
                assert(b / 16 < 16 && b % 16 < 16);
            }
        }
        let e = form_encode(bs);
        assert forall|i: int| 0 <= i < e.len() implies encoded_byte(#[trigger] e[i]) by {
            if i < head.len() {
                assert(e[i] == head[i]);
            } else {
                assert(e[i] == form_encode(bs.drop_first())[i - head.len()]);
            }
        }
    }
}

/// Decoding undoes one encoded byte.
proof fn lemma_decode_encode_byte(b: u8, rest: Seq<u8>)
    ensures
        form_decode(encode_byte(b) + rest) == seq![b] + form_decode(rest),
{
    let e = encode_byte(b) + rest;
    if byte_unchanged(b) {
        assert(e.drop_first() =~= rest);
    } else if b == 0x20 {
        assert(e.drop_first() =~= rest);
    } else {
        let hi = b / 16;
        let lo = b % 16;
        assert(hi < 16 && lo < 16);
        assert(e[0] == 0x25);
        assert(e[1] == hex_upper(hi));
        assert(e[2] == hex_upper(lo));
        assert(hex_value(hex_upper(hi)) == Some(hi));
        assert(hex_value(hex_upper(lo)) == Some(lo));
        assert(hi * 16 + lo == b);
        assert(e.skip(3) =~= rest);
    }
}

/// Form decoding gives back what form encoding was given.
pub proof fn lemma_form_decode_encode(bs: Seq<u8>)
    ensures
        form_decode(form_encode(bs)) == bs,
    decreases bs.len(),
{
    if bs.len() == 0 {
        assert(form_encode(bs) =~= Seq::<u8>::empty());
        assert(bs =~= Seq::<u8>::empty());
    } else {
        lemma_form_decode_encode(bs.drop_first());
        lemma_decode_encode_byte(bs[0], form_encode(bs.drop_first()));
        assert(seq![bs[0]] + bs.drop_first() =~= bs);
    }
}

/// The index of the last `b` in `s`, or `-1` where there is none.
pub open spec fn last_index(s: Seq<u8>, b: u8) -> int
    decreases s.len(),
{
    if s.len() == 0 {
        -1
    } else if s.last() == b {
        s.len() - 1
    } else {
        last_index(s.drop_last(), b)
    }
}

/// `last_index` lies before the end of the sequence.
pub proof fn lemma_last_index_bound(s: Seq<u8>, b: u8)
    ensures
        -1 <= last_index(s, b) < s.len(),
    decreases s.len(),
{
    if s.len() > 0 && s.last() != b {
        lemma_last_index_bound(s.drop_last(), b);
    }
}

/// One `name=value` part of a query, decoded: split at the first `=` (the
/// value is empty where there is none), each side form-decoded.
pub open spec fn decode_query_part(part: Seq<u8>) -> (Seq<u8>, Seq<u8>) {
    let e = first_index(part, 0x3d);
    (
        form_decode(part.take(e)),
        if e < part.len() {
            form_decode(part.skip(e + 1))
        } else {
            Seq::empty()
        },
    )
}

/// The name/value pairs of a query, in order, as a form parser reads them:
/// the query split at each `&`, empty parts skipped, each part decoded.
pub open spec fn query_pairs(query: Seq<u8>) -> Seq<(Seq<u8>, Seq<u8>)>
    decreases query.len(),
{
    let k = last_index(query, 0x26);
    let part = query.skip(k + 1);
    let rest = if k >= 0 {
        proof {
            lemma_last_index_bound(query, 0x26);
        }
        query_pairs(query.take(k))
    } else {
        Seq::empty()
    };
    if part.len() == 0 {
        rest
    } else {
        rest.push(decode_query_part(part))
    }
}

/// No byte of `s` is `b`.
pub open spec fn free_of(s: Seq<u8>, b: u8) -> bool {
    forall|i: int| 0 <= i < s.len() ==> s[i] != b
}

/// A form encoding holds no `&` and no `=`.
pub proof fn lemma_form_encode_free(bs: Seq<u8>)
    ensures
        free_of(form_encode(bs), 0x26),
        free_of(form_encode(bs), 0x3d),
{
    lemma_form_encode_bytes(bs);
}

/// Before a `&`-free tail, the last `&` is the one that precedes it.
proof fn lemma_last_index_before_tail(q: Seq<u8>, t: Seq<u8>)
    requires
        free_of(t, 0x26),
    ensures
        last_index(q + seq![0x26u8] + t, 0x26) == q.len(),
    decreases t.len(),
{
    let s = q + seq![0x26u8] + t;
    if t.len() > 0 {
        assert(s.drop_last() =~= q + seq![0x26u8] + t.drop_last());
        lemma_last_index_before_tail(q, t.drop_last());
    }
}

/// A `&`-free sequence has no last `&`.
proof fn lemma_last_index_absent(t: Seq<u8>)
    requires
        free_of(t, 0x26),
    ensures
        last_index(t, 0x26) == -1,
    decreases t.len(),
{
    if t.len() > 0 {
        lemma_last_index_absent(t.drop_last());
    }
}

/// An encoded pair decodes back to the pair.
pub proof fn lemma_decode_encoded_pair(p: (Seq<u8>, Seq<u8>))
    ensures
        decode_query_part(encoded_pair(p)) == p,
        free_of(encoded_pair(p), 0x26),
        encoded_pair(p).len() > 0,
{
    let x = form_encode(p.0);
    let y = form_encode(p.1);
    let e = encoded_pair(p);
    lemma_form_encode_free(p.0);
    lemma_form_encode_free(p.1);
    assert(e[x.len() as int] == 0x3d);
    lemma_first_index(e, 0x3d, x.len() as int);
    assert(e.take(x.len() as int) =~= x);
    assert(e.skip(x.len() as int + 1) =~= y);
    lemma_form_decode_encode(p.0);
    lemma_form_decode_encode(p.1);
    assert forall|i: int| 0 <= i < e.len() implies e[i] != 0x26 by {
        if i < x.len() {
            assert(e[i] == x[i]);
        } else if i > x.len() {
            assert(e[i] == y[i - x.len() - 1]);
        }
    }
}

/// Appending pairs to a query keeps the pairs it had and adds the new ones
/// after them, in order, each reading back as given.
pub proof fn lemma_query_pairs_append(query: Seq<u8>, pairs: Seq<(Seq<u8>, Seq<u8>)>)
    ensures
        query_pairs(append_pairs(query, pairs)) == query_pairs(query) + pairs,
    decreases pairs.len(),
{
    if pairs.len() == 0 {
        assert(query_pairs(query) + pairs =~= query_pairs(query));
    } else {
        let init = pairs.drop_last();
        let p = pairs.last();
        lemma_query_pairs_append(query, init);
        let q = append_pairs(query, init);
        let t = encoded_pair(p);
        lemma_decode_encoded_pair(p);
        let s = append_pairs(query, pairs);
        if q.len() > 0 {
            assert(s =~= q + seq![0x26u8] + t);
            lemma_last_index_before_tail(q, t);
            assert(s.skip(q.len() as int + 1) =~= t);
            assert(s.take(q.len() as int) =~= q);
        } else {
            assert(s =~= t);
            lemma_last_index_absent(t);
            assert(s.skip(0) =~= t);
            assert(query_pairs(q) =~= Seq::<(Seq<u8>, Seq<u8>)>::empty()) by {
                assert(q =~= Seq::<u8>::empty());
            }
        }
        assert(query_pairs(query) + pairs =~= (query_pairs(query) + init).push(p));
    }
}

} // verus!
