use vstd::prelude::*;
use vstd::string::StringSliceAdditionalSpecFns;
use vstd::utf8::{
    decode_utf8, decode_utf8_split, encode_utf8, encode_utf8_decode_utf8, encode_utf8_valid_utf8,
    is_char_boundary, is_char_boundary_iff_is_leading_byte, valid_utf8, valid_utf8_split,
};

verus! {

/// The characters of `s`, in order.
pub fn chars_of(s: &str) -> (v: Vec<char>)
    ensures
        v@ == s@,
{
    let mut v: Vec<char> = Vec::new();
    for c in it: s.chars()
        invariant
            v@ == it.seq().take(it.index() as int),
    {
        v.push(c);
    }
    v
}

/// Whether `s` begins with the characters of `prefix`.
pub open spec fn has_prefix(s: Seq<char>, prefix: Seq<char>) -> bool {
    prefix.len() <= s.len() && s.take(prefix.len() as int) == prefix
}

/// Whether the two texts hold the same characters.
pub fn same_text(a: &str, b: &str) -> (r: bool)
    ensures
        r == (a@ == b@),
{
    let va = chars_of(a);
    let vb = chars_of(b);
    if va.len() != vb.len() {
        return false;
    }
    let mut i: usize = 0;
    while i < va.len()
        invariant
            va@ == a@,
            vb@ == b@,
            va.len() == vb.len(),
            i <= va.len(),
            forall|j: int| 0 <= j < i ==> va@[j] == vb@[j],
        decreases va.len() - i,
    {
        if va[i] != vb[i] {
            assert(va@[i as int] != vb@[i as int]);
            return false;
        }
        i = i + 1;
    }
    assert(va@ =~= vb@);
    true
}

/// Whether `s` begins with `prefix`.
pub fn starts_with(s: &str, prefix: &str) -> (r: bool)
    ensures
        r == has_prefix(s@, prefix@),
{
    let vs = chars_of(s);
    let vp = chars_of(prefix);
    if vp.len() > vs.len() {
        return false;
    }
    let mut i: usize = 0;
    while i < vp.len()
        invariant
            vs@ == s@,
            vp@ == prefix@,
            vp.len() <= vs.len(),
            i <= vp.len(),
            forall|j: int| 0 <= j < i ==> vs@[j] == vp@[j],
        decreases vp.len() - i,
    {
        if vs[i] != vp[i] {
            assert(vs@.take(vp.len() as int)[i as int] != vp@[i as int]);
            return false;
        }
        i = i + 1;
    }
    assert(vs@.take(vp.len() as int) =~= vp@);
    true
}

/// An ASCII decimal digit.
pub open spec fn is_digit(c: char) -> bool {
    '0' <= c && c <= '9'
}

/// The number written by a run of decimal digits, most significant first.
pub open spec fn digits_value(d: Seq<char>) -> nat
    decreases d.len(),
{
    if d.len() == 0 {
        0
    } else {
        digits_value(d.drop_last()) * 10 + ((d.last() as nat) - ('0' as nat)) as nat
    }
}

/// Every character of `d` is a decimal digit.
pub open spec fn all_digits(d: Seq<char>) -> bool {
    forall|i: int| 0 <= i < d.len() ==> is_digit(#[trigger] d[i])
}

/// The digits of a decimal number text: what follows an optional leading `+`.
pub open spec fn unsigned_digits(s: Seq<char>) -> Seq<char> {
    if s.len() > 0 && s[0] == '+' {
        s.drop_first()
    } else {
        s
    }
}

/// What reading `s` as an unsigned decimal `usize` gives: an optional `+`, then one or
/// more ASCII digits whose value fits in `usize`; anything else (a sign alone, a `-`,
/// white space, any other character, a value too large) is no number.
pub open spec fn parse_usize_spec(s: Seq<char>) -> Option<usize> {
    let d = unsigned_digits(s);
    if d.len() > 0 && all_digits(d) && digits_value(d) <= usize::MAX {
        Some(digits_value(d) as usize)
    } else {
        None
    }
}

/// A longer run of digits never has a smaller value than its prefix.
proof fn lemma_digits_value_prefix(d: Seq<char>, k: int)
    requires
        0 <= k <= d.len(),
        all_digits(d),
    ensures
        digits_value(d.take(k)) <= digits_value(d),
    decreases d.len() - k,
{
    if k < d.len() {
        lemma_digits_value_prefix(d, k + 1);
        let ghost t = d.take(k + 1);
        assert(t.drop_last() =~= d.take(k));
        assert(is_digit(d[k]));
    } else {
        assert(d.take(k) =~= d);
    }
}

/// Reads `s` as an unsigned decimal number, as `usize::from_str` does: `None` where
/// that gives an error.
pub fn parse_usize(s: &str) -> (r: Option<usize>)
    ensures
        r == parse_usize_spec(s@),
{
    let v = chars_of(s);
    assert(v@.skip(0) =~= v@);
    parse_usize_from(&v, 0)
}

/// Reads the characters of `v` from index `from` on as an unsigned decimal number, as
/// `usize::from_str` does: `None` where that gives an error.
pub fn parse_usize_from(v: &Vec<char>, from: usize) -> (r: Option<usize>)
    requires
        from <= v@.len(),
    ensures
        r == parse_usize_spec(v@.skip(from as int)),
{
    let ghost text = v@.skip(from as int);
    let start: usize = if from < v.len() && v[from] == '+' { from + 1 } else { from };
    let ghost d = unsigned_digits(text);
    assert(d =~= v@.skip(start as int));
    if start >= v.len() {
        return None;
    }
    let mut value: usize = 0;
    let mut i: usize = start;
    while i < v.len()
        invariant
            start <= i <= v.len(),
            d == unsigned_digits(text),
            text == v@.skip(from as int),
            d =~= v@.skip(start as int),
            all_digits(d.take(i - start)),
            value as nat == digits_value(d.take(i - start)),
        decreases v.len() - i,
    {
        let c = v[i];
        let ghost k: int = i - start;
        assert(d[k] == c);
        if !('0' <= c && c <= '9') {
            assert(!all_digits(d));
            return None;
        }
        let digit: usize = ((c as u32) - ('0' as u32)) as usize;
        let ghost t = d.take(k + 1);
        assert(t.drop_last() =~= d.take(k));
        assert(all_digits(t));
        assert(digits_value(t) == digits_value(d.take(k)) * 10 + digit);
        let m = value.checked_mul(10);
        match m {
            None => {
                proof {
                    if all_digits(d) {
                        lemma_digits_value_prefix(d, k + 1);
                    }
                }
                return None;
            },
            Some(m) => {
                let a = m.checked_add(digit);
                match a {
                    None => {
                        proof {
                            if all_digits(d) {
                                lemma_digits_value_prefix(d, k + 1);
                            }
                        }
                        return None;
                    },
                    Some(a) => {
                        value = a;
                    },
                }
            },
        }
        i = i + 1;
    }
    assert(d.take(i - start) =~= d);
    Some(value)
}


/// A value below 0x80 is a byte of the UTF-8 encoding of a character only where it is
/// that character's whole encoding.
proof fn lemma_encode_scalar_ascii(c: char, b: u8)
    requires
        b <= 0x7f,
    ensures
        vstd::utf8::encode_scalar(c as u32).contains(b) <==> c == (b as char),
{
    let v = c as u32;
    let e = vstd::utf8::encode_scalar(v);
    vstd::utf8::char_is_scalar(c);
    if vstd::utf8::has_width_1_encoding(v) {
        assert((v & 0x7f) as u8 == v) by (bit_vector)
            requires
                v <= 0x7f,
        ;
        assert(e[0] == v);
        if e.contains(b) {
            assert(e[0] == b);
            vstd::utf8::char_u32_cast(c, v);
        }
        if c == (b as char) {
            assert(e[0] == b);
        }
    } else {
        assert forall|i: int| 0 <= i < e.len() implies e[i] >= 0x80 by {
            assert(forall|x: u32| #![auto] (0xC0u8 | ((x >> 6) & 0x1F) as u8) >= 0x80) by (bit_vector);
            assert(forall|x: u32| #![auto] (0xE0u8 | ((x >> 12) & 0x0F) as u8) >= 0x80) by (bit_vector);
            assert(forall|x: u32| #![auto] (0xF0u8 | ((x >> 18) & 0x7) as u8) >= 0x80) by (bit_vector);
            assert(forall|x: u32| #![auto] (0x80u8 | (x & 0x3F) as u8) >= 0x80) by (bit_vector);
            assert(forall|x: u32| #![auto] (0x80u8 | ((x >> 6) & 0x3F) as u8) >= 0x80) by (bit_vector);
            assert(forall|x: u32| #![auto] (0x80u8 | ((x >> 12) & 0x3F) as u8) >= 0x80) by (bit_vector);
        }
        if e.contains(b) {
            let i = choose|i: int| 0 <= i < e.len() && e[i] == b;
            assert(e[i] >= 0x80);
        }
    }
}

/// A character below 0x80 occurs in a text exactly where its byte occurs in the text's
/// UTF-8 encoding.
proof fn lemma_encode_contains_ascii(chars: Seq<char>, b: u8)
    requires
        b <= 0x7f,
    ensures
        encode_utf8(chars).contains(b) <==> chars.contains(b as char),
    decreases chars.len(),
{
    if chars.len() > 0 {
        let c0 = chars[0];
        let rest = chars.drop_first();
        let e0 = vstd::utf8::encode_scalar(c0 as u32);
        let er = encode_utf8(rest);
        lemma_encode_contains_ascii(rest, b);
        lemma_encode_scalar_ascii(c0, b);
        assert(encode_utf8(chars) == e0 + er);
        if (e0 + er).contains(b) {
            let i = choose|i: int| 0 <= i < (e0 + er).len() && (e0 + er)[i] == b;
            if i < e0.len() {
                assert(e0[i] == b);
            } else {
                assert(er[i - e0.len()] == b);
            }
        }
        if e0.contains(b) {
            let i = choose|i: int| 0 <= i < e0.len() && e0[i] == b;
            assert((e0 + er)[i] == b);
        }
        if er.contains(b) {
            let i = choose|i: int| 0 <= i < er.len() && er[i] == b;
            assert((e0 + er)[e0.len() + i] == b);
        }
        if chars.contains(b as char) {
            let i = choose|i: int| 0 <= i < chars.len() && chars[i] == (b as char);
            if i > 0 {
                assert(rest[i - 1] == (b as char));
            }
        }
        if rest.contains(b as char) {
            let i = choose|i: int| 0 <= i < rest.len() && rest[i] == (b as char);
            assert(chars[i + 1] == (b as char));
        }
    }
}

/// Splits `s` at the first occurrence of the character `sep`, below 0x80, as
/// `str::split_once` does: the text before it and the text after it, or `None` where
/// `sep` does not occur.
pub fn split_once_ascii(s: &str, sep: u8) -> (r: Option<(String, String)>)
    requires
        sep <= 0x7f,
    ensures
        r is None <==> !s@.contains(sep as char),
        r matches Some((a, b)) ==> s@ == a@ + seq![sep as char] + b@ && !a@.contains(sep as char),
{
    let bytes = s.as_bytes();
    let ghost bs = bytes@;
    assert(bs == encode_utf8(s@));
    let mut i: usize = 0;
    while i < bytes.len()
        invariant
            i <= bytes@.len(),
            bytes@ == bs,
            forall|j: int| 0 <= j < i ==> bs[j] != sep,
        ensures
            i <= bs.len(),
            forall|j: int| 0 <= j < i ==> bs[j] != sep,
            i < bs.len() ==> bs[i as int] == sep,
        decreases bytes.len() - i,
    {
        if bytes[i] == sep {
            break;
        }
        i = i + 1;
    }
    proof {
        lemma_encode_contains_ascii(s@, sep);
    }
    if i == bytes.len() {
        assert(!bs.contains(sep));
        return None;
    }
    let ghost n = bs.len() as int;
    proof {
        encode_utf8_valid_utf8(s@);
        is_char_boundary_iff_is_leading_byte(bs, i as int);
        assert(vstd::utf8::is_leading_byte_width_1(bs[i as int]));
        assert(is_char_boundary(bs, i as int));
        valid_utf8_split(bs, i as int);
        decode_utf8_split(bs, i as int);
        encode_utf8_decode_utf8(s@);
    }
    let (head, rest) = s.split_at(i);
    let ghost rb = bs.subrange(i as int, n);
    assert(rest.spec_bytes() =~= rb);
    assert(valid_utf8(rb));
    assert(is_char_boundary(rb, 1)) by {
        reveal_with_fuel(is_char_boundary, 2);
        reveal_with_fuel(valid_utf8, 2);
        assert(rb[0] == sep);
        assert(vstd::utf8::length_of_first_scalar(rb) == 1);
        assert(valid_utf8(vstd::utf8::pop_first_scalar(rb)));
    }
    proof {
        decode_utf8_split(rb, 1);
        encode_utf8_decode_utf8(rest@);
        encode_utf8_decode_utf8(head@);
    }
    let (mid, tail) = rest.split_at(1);
    proof {
        encode_utf8_decode_utf8(mid@);
        encode_utf8_decode_utf8(tail@);
        encode_utf8_valid_utf8(mid@);
        assert(mid.spec_bytes() =~= seq![sep]);
        reveal_with_fuel(decode_utf8, 2);
        assert(decode_utf8(seq![sep]) =~= seq![sep as char]) by {
            let one = seq![sep];
            assert(one[0] == sep);
            assert((sep & 0x7f) == sep) by (bit_vector)
                requires
                    sep <= 0x7f,
            ;
            assert(vstd::utf8::decode_first_scalar(one) == sep as u32);
            assert(vstd::utf8::pop_first_scalar(one) =~= Seq::<u8>::empty());
            assert(decode_utf8(one) == seq![vstd::utf8::decode_first_scalar(one) as char] + decode_utf8(vstd::utf8::pop_first_scalar(one)));
            assert(sep as u32 as char == sep as char);
        }
        assert(head@ == decode_utf8(bs.subrange(0, i as int)));
        assert(rest@ == decode_utf8(rb));
        assert(rb.subrange(0, 1) =~= seq![sep]);
        assert(tail.spec_bytes() =~= rb.subrange(1, rb.len() as int));
        lemma_encode_contains_ascii(head@, sep);
        assert(head.spec_bytes() =~= bs.subrange(0, i as int));
        assert(!head.spec_bytes().contains(sep));
    }
    let a = head.to_owned();
    let b = tail.to_owned();
    Some((a, b))
}

} // verus!
