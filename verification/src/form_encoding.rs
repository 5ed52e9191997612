use vstd::prelude::*;
use vstd::string::StringSliceAdditionalSpecFns;
use vstd::utf8::encode_utf8;

use crate::text::{all_ascii, lemma_all_ascii_concat};

verus! {

/// Whether `application/x-www-form-urlencoded` keeps the byte as it is:
/// ASCII alphanumerics and `*`, `-`, `.`, `_`.
pub open spec fn is_form_unreserved(b: u8) -> bool {
    ||| 0x30 <= b <= 0x39
    ||| 0x41 <= b <= 0x5a
    ||| 0x61 <= b <= 0x7a
    ||| b == 0x2a
    ||| b == 0x2d
    ||| b == 0x2e
    ||| b == 0x5f
}

/// The upper-case ASCII hex digit byte for `n % 16`.
pub open spec fn pct_hex_digit(n: nat) -> u8 {
    if n % 16 < 10 {
        (0x30 + n % 16) as u8
    } else {
        (0x41 + n % 16 - 10) as u8
    }
}

/// The form-urlencoded image of one byte: space becomes `+`, an unreserved
/// byte stays, and any other byte becomes `%` and two upper-case hex digits.
pub open spec fn escape_byte(b: u8) -> Seq<u8> {
    if b == 0x20 {
        seq![0x2bu8]
    } else if is_form_unreserved(b) {
        seq![b]
    } else {
        seq![0x25u8, pct_hex_digit((b / 16) as nat), pct_hex_digit((b % 16) as nat)]
    }
}

/// The form-urlencoded image of a byte sequence.
pub open spec fn escape_bytes(s: Seq<u8>) -> Seq<u8>
    decreases s.len(),
{
    if s.len() == 0 {
        Seq::empty()
    } else {
        escape_bytes(s.drop_last()) + escape_byte(s.last())
    }
}

/// One encoded `key=value` pair: the escaped UTF-8 bytes of the key, `=`,
/// then the escaped UTF-8 bytes of the value.
pub open spec fn encode_pair(k: Seq<char>, v: Seq<char>) -> Seq<u8> {
    escape_bytes(encode_utf8(k)) + seq![0x3du8] + escape_bytes(encode_utf8(v))
}

/// All pairs encoded in order and joined with `&`.
pub open spec fn encode_pairs(ps: Seq<(String, String)>) -> Seq<u8>
    decreases ps.len(),
{
    if ps.len() == 0 {
        Seq::empty()
    } else if ps.len() == 1 {
        encode_pair(ps[0].0@, ps[0].1@)
    } else {
        encode_pairs(ps.drop_last()) + seq![0x26u8] + encode_pair(ps.last().0@, ps.last().1@)
    }
}

/// Every byte of an escaped sequence is ASCII.
pub proof fn lemma_escape_bytes_ascii(s: Seq<u8>)
    ensures
        all_ascii(escape_bytes(s)),
    decreases s.len(),
{
    if s.len() > 0 {
        lemma_escape_bytes_ascii(s.drop_last());
        lemma_all_ascii_concat(escape_bytes(s.drop_last()), escape_byte(s.last()));
    }
}

/// Every byte of one encoded pair is ASCII.
pub proof fn lemma_encode_pair_ascii(k: Seq<char>, v: Seq<char>)
    ensures
        all_ascii(encode_pair(k, v)),
{
    lemma_escape_bytes_ascii(encode_utf8(k));
    lemma_escape_bytes_ascii(encode_utf8(v));
    lemma_all_ascii_concat(escape_bytes(encode_utf8(k)), seq![0x3du8]);
    lemma_all_ascii_concat(escape_bytes(encode_utf8(k)) + seq![0x3du8], escape_bytes(encode_utf8(v)));
}

/// Every byte of an encoded pair list is ASCII.
pub proof fn lemma_encode_pairs_ascii(ps: Seq<(String, String)>)
    ensures
        all_ascii(encode_pairs(ps)),
    decreases ps.len(),
{
    if ps.len() == 1 {
        lemma_encode_pair_ascii(ps[0].0@, ps[0].1@);
    } else if ps.len() > 1 {
        lemma_encode_pairs_ascii(ps.drop_last());
        lemma_encode_pair_ascii(ps.last().0@, ps.last().1@);
        lemma_all_ascii_concat(encode_pairs(ps.drop_last()), seq![0x26u8]);
        lemma_all_ascii_concat(
            encode_pairs(ps.drop_last()) + seq![0x26u8],
            encode_pair(ps.last().0@, ps.last().1@),
        );
    }
}

/// Appends the form-urlencoded image of `bytes` to `out`.
pub fn push_escaped(bytes: &[u8], out: &mut Vec<u8>)
    ensures
        final(out)@ == old(out)@ + escape_bytes(bytes@),
{
    let n = bytes.len();
    let mut i: usize = 0;
    while i < n
        invariant
            n == bytes@.len(),
            i <= n,
            out@ == old(out)@ + escape_bytes(bytes@.take(i as int)),
        decreases n - i,
    {
        proof {
            assert(bytes@.take(i + 1 as int).drop_last() =~= bytes@.take(i as int));
            assert(bytes@.take(i + 1 as int).last() == bytes@[i as int]);
        }
        let b = bytes[i];
        if b == 0x20 {
            out.push(0x2b);
        } else if (0x30 <= b && b <= 0x39) || (0x41 <= b && b <= 0x5a) || (0x61 <= b && b <= 0x7a)
            || b == 0x2a || b == 0x2d || b == 0x2e || b == 0x5f {
            out.push(b);
        } else {
            out.push(0x25);
            let hi = b / 16;
            let lo = b % 16;
            out.push(if hi < 10 { 0x30 + hi } else { 0x41 + hi - 10 });
            out.push(if lo < 10 { 0x30 + lo } else { 0x41 + lo - 10 });
        }
        i += 1;
    }
    proof {
        assert(bytes@.take(n as int) =~= bytes@);
    }
}

/// Encodes a list of string pairs as `application/x-www-form-urlencoded`
/// bytes: pairs in order, `key=value`, joined with `&`, with space as `+`
/// and every byte outside the unreserved set percent-encoded.
pub fn form_urlencode(pairs: &Vec<(String, String)>) -> (r: Vec<u8>)
    ensures
        r@ == encode_pairs(pairs@),
{
    let mut out: Vec<u8> = Vec::new();
    let n = pairs.len();
    let mut i: usize = 0;
    while i < n
        invariant
            n == pairs@.len(),
            i <= n,
            out@ == encode_pairs(pairs@.take(i as int)),
        decreases n - i,
    {
        proof {
            assert(pairs@.take(i + 1 as int).drop_last() =~= pairs@.take(i as int));
            assert(pairs@.take(i + 1 as int).last() == pairs@[i as int]);
        }
        if i > 0 {
            out.push(0x26);
        }
        push_escaped(pairs[i].0.as_str().as_bytes(), &mut out);
        out.push(0x3d);
        push_escaped(pairs[i].1.as_str().as_bytes(), &mut out);
        i += 1;
    }
    proof {
        assert(pairs@.take(n as int) =~= pairs@);
    }
    out
}

} // verus!
