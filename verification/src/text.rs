use vstd::prelude::*;
use vstd::string::StringSliceAdditionalSpecFns;
use vstd::utf8::{
    char_is_scalar, encode_scalar, encode_utf8, encode_utf8_decode_utf8, encode_utf8_valid_utf8,
    has_width_2_encoding, has_width_3_encoding, is_ascii_chars, is_ascii_chars_encode_utf8,
    valid_utf8,
};

verus! {

/// Compares two string slices for equality of their character sequences.
pub fn str_eq(a: &str, b: &str) -> (r: bool)
    ensures
        r == (a@ == b@),
{
    let ab = a.as_bytes();
    let bb = b.as_bytes();
    if ab.len() != bb.len() {
        proof {
            encode_utf8_decode_utf8(a@);
            encode_utf8_decode_utf8(b@);
        }
        return false;
    }
    let n = ab.len();
    let mut i: usize = 0;
    while i < n
        invariant
            ab@ == a.spec_bytes(),
            bb@ == b.spec_bytes(),
            n == ab@.len() == bb@.len(),
            i <= n,
            forall|j: int| 0 <= j < i ==> ab@[j] == bb@[j],
        decreases n - i,
    {
        if ab[i] != bb[i] {
            proof {
                encode_utf8_decode_utf8(a@);
                encode_utf8_decode_utf8(b@);
            }
            return false;
        }
        i += 1;
    }
    proof {
        assert(ab@ =~= bb@);
        encode_utf8_decode_utf8(a@);
        encode_utf8_decode_utf8(b@);
    }
    true
}

/// Whether every byte of `s` is ASCII.
pub open spec fn all_ascii(s: Seq<u8>) -> bool {
    forall|i: int| 0 <= i < s.len() ==> #[trigger] s[i] < 0x80
}

/// ASCII-ness is preserved by concatenation.
pub proof fn lemma_all_ascii_concat(a: Seq<u8>, b: Seq<u8>)
    requires
        all_ascii(a),
        all_ascii(b),
    ensures
        all_ascii(a + b),
{
    assert forall|i: int| 0 <= i < (a + b).len() implies #[trigger] (a + b)[i] < 0x80 by {
        if i < a.len() {
            assert((a + b)[i] == a[i]);
        } else {
            assert((a + b)[i] == b[i - a.len()]);
        }
    }
}

/// The ASCII digit byte for `n % 10`.
pub open spec fn dec_digit(n: nat) -> u8 {
    (0x30 + n % 10) as u8
}

/// The decimal digit bytes of `n`, most significant first, with no leading zeros.
pub open spec fn dec_bytes(n: nat) -> Seq<u8>
    decreases n,
{
    if n < 10 {
        seq![dec_digit(n)]
    } else {
        dec_bytes(n / 10).push(dec_digit(n))
    }
}

/// The decimal digit characters of `n`, most significant first.
pub open spec fn dec_chars(n: nat) -> Seq<char> {
    dec_bytes(n).map_values(|b: u8| b as char)
}

/// Every decimal digit byte is ASCII.
pub proof fn lemma_dec_bytes_ascii(n: nat)
    ensures
        all_ascii(dec_bytes(n)),
    decreases n,
{
    if n < 10 {
        assert(dec_bytes(n) =~= seq![dec_digit(n)]);
    } else {
        lemma_dec_bytes_ascii(n / 10);
        assert(dec_bytes(n) =~= dec_bytes(n / 10) + seq![dec_digit(n)]);
        lemma_all_ascii_concat(dec_bytes(n / 10), seq![dec_digit(n)]);
    }
}

/// Appends the decimal digit bytes of `n` to `out`.
pub fn push_dec_bytes(n: u64, out: &mut Vec<u8>)
    ensures
        final(out)@ == old(out)@ + dec_bytes(n as nat),
    decreases n,
{
    if n >= 10 {
        push_dec_bytes(n / 10, out);
    }
    out.push(0x30 + (n % 10) as u8);
}

/// The decimal text of `n`, without leading zeros.
pub fn u64_to_dec_string(n: u64) -> (r: String)
    ensures
        r@ == dec_chars(n as nat),
{
    let mut out: Vec<u8> = Vec::new();
    push_dec_bytes(n, &mut out);
    proof {
        lemma_dec_bytes_ascii(n as nat);
        assert(out@ =~= dec_bytes(n as nat));
    }
    ascii_to_string(out)
}

/// The ASCII hex digit byte (lower case) for `n % 16`.
pub open spec fn hex_digit(n: nat) -> u8 {
    if n % 16 < 10 {
        (0x30 + n % 16) as u8
    } else {
        (0x61 + n % 16 - 10) as u8
    }
}

/// The hex digit bytes of `n`, most significant first, lower case, no leading zeros.
pub open spec fn hex_bytes(n: nat) -> Seq<u8>
    decreases n,
{
    if n < 16 {
        seq![hex_digit(n)]
    } else {
        hex_bytes(n / 16).push(hex_digit(n))
    }
}

/// Every hex digit byte is ASCII.
pub proof fn lemma_hex_bytes_ascii(n: nat)
    ensures
        all_ascii(hex_bytes(n)),
    decreases n,
{
    if n < 16 {
        assert(hex_bytes(n) =~= seq![hex_digit(n)]);
    } else {
        lemma_hex_bytes_ascii(n / 16);
        assert(hex_bytes(n) =~= hex_bytes(n / 16) + seq![hex_digit(n)]);
        lemma_all_ascii_concat(hex_bytes(n / 16), seq![hex_digit(n)]);
    }
}

/// Appends the hex digit bytes of `n` to `out`.
pub fn push_hex_bytes(n: u64, out: &mut Vec<u8>)
    ensures
        final(out)@ == old(out)@ + hex_bytes(n as nat),
    decreases n,
{
    if n >= 16 {
        push_hex_bytes(n / 16, out);
    }
    let d = (n % 16) as u8;
    if d < 10 {
        out.push(0x30 + d);
    } else {
        out.push(0x61 + d - 10);
    }
}

/// `c` with an ASCII upper-case letter folded to lower case.
pub open spec fn lower_char(c: char) -> char {
    if 'A' <= c && c <= 'Z' {
        ((c as u32) + 32) as char
    } else {
        c
    }
}

/// `s` with all ASCII upper-case letters folded to lower case.
pub open spec fn lower_chars(s: Seq<char>) -> Seq<char> {
    s.map_values(|c: char| lower_char(c))
}

/// `b` with an ASCII upper-case letter byte folded to lower case.
pub open spec fn lower_byte(b: u8) -> u8 {
    if 0x41 <= b <= 0x5a {
        (b + 32) as u8
    } else {
        b
    }
}

/// `v` with all ASCII upper-case letter bytes folded to lower case.
pub open spec fn lower_bytes(v: Seq<u8>) -> Seq<u8> {
    v.map_values(|b: u8| lower_byte(b))
}

/// Folding case commutes with the UTF-8 encoding of one character: an
/// ASCII letter's one-byte encoding is folded, and every byte of any other
/// character's encoding lies outside the letter range and is left alone.
proof fn lemma_encode_scalar_lower(c: char)
    ensures
        encode_scalar(lower_char(c) as u32) == lower_bytes(encode_scalar(c as u32)),
{
    let sc = c as u32;
    char_is_scalar(c);
    if 'A' <= c && c <= 'Z' {
        let lc = lower_char(c) as u32;
        assert(lc == sc + 32);
        assert((sc & 0x7F) as u8 == sc as u8 && 0x41 <= sc as u8 <= 0x5a) by (bit_vector)
            requires
                0x41 <= sc <= 0x5a,
        ;
        assert((lc & 0x7F) as u8 == lc as u8) by (bit_vector)
            requires
                0x61 <= lc <= 0x7a,
        ;
        assert(lc as u8 == (sc as u8 + 32) as u8) by (bit_vector)
            requires
                0x41 <= sc <= 0x5a && lc == sc + 32,
        ;
        assert(encode_scalar(lc) =~= lower_bytes(encode_scalar(sc)));
    } else if sc < 0x80 {
        assert(lower_char(c) == c);
        assert(!(0x41 <= (sc & 0x7F) as u8 <= 0x5a)) by (bit_vector)
            requires
                sc < 0x80 && !(0x41 <= sc <= 0x5a),
        ;
        assert(encode_scalar(sc) =~= lower_bytes(encode_scalar(sc)));
    } else {
        assert(lower_char(c) == c);
        if has_width_2_encoding(sc) {
            assert(0xC0u8 | (((sc >> 6) & 0x1F) as u8) >= 0x80) by (bit_vector);
            assert(0x80u8 | ((sc & 0x3F) as u8) >= 0x80) by (bit_vector);
        } else if has_width_3_encoding(sc) {
            assert(0xE0u8 | (((sc >> 12) & 0x0F) as u8) >= 0x80) by (bit_vector);
            assert(0x80u8 | (((sc >> 6) & 0x3F) as u8) >= 0x80) by (bit_vector);
            assert(0x80u8 | ((sc & 0x3F) as u8) >= 0x80) by (bit_vector);
        } else {
            assert(0xF0u8 | (((sc >> 18) & 0x7) as u8) >= 0x80) by (bit_vector);
            assert(0x80u8 | (((sc >> 12) & 0x3F) as u8) >= 0x80) by (bit_vector);
            assert(0x80u8 | (((sc >> 6) & 0x3F) as u8) >= 0x80) by (bit_vector);
            assert(0x80u8 | ((sc & 0x3F) as u8) >= 0x80) by (bit_vector);
        }
        assert(encode_scalar(sc) =~= lower_bytes(encode_scalar(sc)));
    }
}

/// Folding case commutes with UTF-8 encoding.
proof fn lemma_encode_lower_chars(s: Seq<char>)
    ensures
        encode_utf8(lower_chars(s)) == lower_bytes(encode_utf8(s)),
    decreases s.len(),
{
    if s.len() == 0 {
        assert(lower_chars(s) =~= Seq::<char>::empty());
        assert(encode_utf8(lower_chars(s)) =~= lower_bytes(encode_utf8(s)));
    } else {
        lemma_encode_lower_chars(s.drop_first());
        lemma_encode_scalar_lower(s[0]);
        let ls = lower_chars(s);
        assert(ls[0] == lower_char(s[0]));
        assert(ls.drop_first() =~= lower_chars(s.drop_first()));
        assert(lower_bytes(encode_scalar(s[0] as u32) + encode_utf8(s.drop_first()))
            =~= lower_bytes(encode_scalar(s[0] as u32)) + lower_bytes(
            encode_utf8(s.drop_first()),
        ));
        assert(encode_utf8(lower_chars(s)) =~= lower_bytes(encode_utf8(s)));
    }
}

/// Relies on `String::from_utf8`: bytes that are valid UTF-8 become the
/// string whose UTF-8 encoding they are.
#[verifier::external_body]
pub fn string_from_utf8(v: Vec<u8>) -> (r: String)
    requires
        valid_utf8(v@),
    ensures
        encode_utf8(r@) == v@,
{
    match String::from_utf8(v) {
        Ok(s) => s,
        Err(_) => String::new(),
    }
}

/// Folds every ASCII upper-case letter of a string to lower case, keeping
/// every other character.
pub fn ascii_lowercase(s: &str) -> (r: String)
    ensures
        r@ == lower_chars(s@),
{
    let bytes = s.as_bytes();
    let n = bytes.len();
    let mut out: Vec<u8> = Vec::new();
    let mut i: usize = 0;
    while i < n
        invariant
            bytes@ == s.spec_bytes(),
            n == bytes@.len(),
            i <= n,
            out@ == lower_bytes(bytes@.take(i as int)),
        decreases n - i,
    {
        let b = bytes[i];
        if 0x41 <= b && b <= 0x5a {
            out.push(b + 32);
        } else {
            out.push(b);
        }
        proof {
            assert(out@ =~= lower_bytes(bytes@.take(i + 1 as int)));
        }
        i += 1;
    }
    proof {
        assert(bytes@.take(n as int) =~= bytes@);
        lemma_encode_lower_chars(s@);
        assert(out@ == encode_utf8(lower_chars(s@)));
        encode_utf8_valid_utf8(lower_chars(s@));
    }
    let r = string_from_utf8(out);
    proof {
        encode_utf8_decode_utf8(r@);
        encode_utf8_decode_utf8(lower_chars(s@));
    }
    r
}

/// Decodes a vector of ASCII bytes into the string of those characters.
pub fn ascii_to_string(v: Vec<u8>) -> (r: String)
    requires
        all_ascii(v@),
    ensures
        r@ == v@.map_values(|b: u8| b as char),
{
    let ghost chars = v@.map_values(|b: u8| b as char);
    proof {
        assert forall|i: int| 0 <= i < chars.len() implies '\0' <= #[trigger] chars[i]
            <= '\u{7f}' by {
            assert(chars[i] == v@[i] as char);
            assert(v@[i] < 0x80);
        }
        assert(is_ascii_chars(chars));
        is_ascii_chars_encode_utf8(chars);
        assert(encode_utf8(chars) =~= v@);
        encode_utf8_valid_utf8(chars);
    }
    let r = string_from_utf8(v);
    proof {
        encode_utf8_decode_utf8(r@);
        encode_utf8_decode_utf8(chars);
    }
    r
}

/// Compares the ASCII-lower-cased characters of `name` to `target`, which
/// is expected to be lower case already.
pub fn eq_lower(name: &str, target: &str) -> (r: bool)
    ensures
        r == (lower_chars(name@) == target@),
{
    let l = ascii_lowercase(name);
    str_eq(l.as_str(), target)
}

} // verus!
