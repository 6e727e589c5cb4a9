//! Wide-string marshalling: conversion between the null-terminated UTF-16
//! buffers the native text subsystem traffics in and host strings.
//!
//! The encoding and decoding functions are specified against mathematical
//! [`utf16_encode`] / [`utf16_decode`] definitions, and a round-trip law
//! connects the two: decoding an encoded character sequence yields exactly
//! that sequence.

use vstd::prelude::*;

use crate::error::Error;

verus! {

broadcast use vstd::utf8::char_is_scalar, vstd::utf8::char_u32_cast;

/// True when the unit encodes a scalar by itself, i.e. is not a surrogate.
pub open spec fn is_single_unit(u: u16) -> bool {
    u < 0xD800 || u >= 0xE000
}

/// True when the unit is a high (leading) surrogate.
pub open spec fn is_high_surrogate(u: u16) -> bool {
    0xD800 <= u < 0xDC00
}

/// True when the unit is a low (trailing) surrogate.
pub open spec fn is_low_surrogate(u: u16) -> bool {
    0xDC00 <= u < 0xE000
}

/// The scalar value encoded by a surrogate pair.
pub open spec fn combined_scalar(hi: u16, lo: u16) -> u32
    recommends
        is_high_surrogate(hi),
        is_low_surrogate(lo),
{
    (0x10000 + (hi - 0xD800) * 0x400 + (lo - 0xDC00)) as u32
}

/// The characters encoded by a well-formed UTF-16 unit sequence, or nothing
/// when the sequence is ill-formed (an unpaired or reversed surrogate).
pub open spec fn utf16_decode(units: Seq<u16>) -> Option<Seq<char>>
    decreases units.len(),
{
    if units.len() == 0 {
        Some(Seq::<char>::empty())
    } else if is_single_unit(units[0]) {
        match utf16_decode(units.skip(1)) {
            Some(rest) => Some(seq![(units[0] as u32) as char] + rest),
            None => None,
        }
    } else if units.len() >= 2 && is_high_surrogate(units[0]) && is_low_surrogate(units[1]) {
        match utf16_decode(units.skip(2)) {
            Some(rest) => Some(seq![(combined_scalar(units[0], units[1])) as char] + rest),
            None => None,
        }
    } else {
        None
    }
}

/// The UTF-16 units for one character: one unit below 0x10000, else a
/// surrogate pair.
pub open spec fn encode_char(c: char) -> Seq<u16> {
    let v = c as u32;
    if v < 0x10000 {
        seq![v as u16]
    } else {
        seq![
            (0xD800 + (v - 0x10000) / 0x400) as u16,
            (0xDC00 + (v - 0x10000) % 0x400) as u16,
        ]
    }
}

/// The UTF-16 encoding of a character sequence.
pub open spec fn utf16_encode(chars: Seq<char>) -> Seq<u16>
    decreases chars.len(),
{
    if chars.len() == 0 {
        Seq::<u16>::empty()
    } else {
        encode_char(chars[0]) + utf16_encode(chars.skip(1))
    }
}

/// A decoded remainder prefixed with already-decoded characters; the failure
/// of the remainder is the failure of the whole.
pub open spec fn prepend_decoded(prefix: Seq<char>, rest: Option<Seq<char>>) -> Option<Seq<char>> {
    match rest {
        Some(r) => Some(prefix + r),
        None => None,
    }
}

/// Relies on char::from_u32 of std: it returns the character with the given
/// scalar value, and nothing for a surrogate code point or a value above the
/// scalar range.
pub assume_specification[ char::from_u32 ](v: u32) -> (r: Option<char>)
    ensures
        match r {
            Some(c) => vstd::utf8::is_scalar(v) && c as u32 == v,
            None => !vstd::utf8::is_scalar(v),
        },
;

/// Relies on String::push of std: it appends exactly the given character.
pub assume_specification[ String::push ](s: &mut String, c: char)
    ensures
        final(s)@ == old(s)@.push(c),
;

/// Decoding an encoded character prefixed to further units decodes the
/// character and then the rest.
proof fn lemma_decode_encode_char_prefix(c: char, rest_units: Seq<u16>)
    ensures
        utf16_decode(encode_char(c) + rest_units) == prepend_decoded(
            seq![c],
            utf16_decode(rest_units),
        ),
{
    let v = c as u32;
    let units = encode_char(c) + rest_units;
    if v < 0x10000 {
        let u = v as u16;
        assert(units[0] == u);
        assert(is_single_unit(u));
        assert(units.skip(1) =~= rest_units);
        assert((u as u32) == v);
        assert((u as u32) as char == c);
        match utf16_decode(rest_units) {
            Some(rest) => {
                assert(utf16_decode(units) == Some(seq![c] + rest));
            },
            None => {
                assert(utf16_decode(units) == None::<Seq<char>>);
            },
        }
    } else {
        assert(v <= 0x10FFFF);
        let d = (v - 0x10000) as int;
        assert(0 <= d < 0x100000);
        assert(d / 0x400 < 0x400) by (nonlinear_arith)
            requires
                0 <= d < 0x100000,
        ;
        assert(0 <= d / 0x400 && 0 <= d % 0x400 < 0x400) by (nonlinear_arith)
            requires
                0 <= d,
        ;
        let hi = (0xD800 + d / 0x400) as u16;
        let lo = (0xDC00 + d % 0x400) as u16;
        assert(units[0] == hi && units[1] == lo);
        assert(is_high_surrogate(hi) && is_low_surrogate(lo));
        assert(!is_single_unit(hi));
        vstd::arithmetic::div_mod::lemma_fundamental_div_mod(d, 0x400);
        assert(combined_scalar(hi, lo) == v);
        assert((combined_scalar(hi, lo)) as char == c);
        assert(units.skip(2) =~= rest_units);
        match utf16_decode(rest_units) {
            Some(rest) => {
                assert(utf16_decode(units) == Some(seq![c] + rest));
            },
            None => {
                assert(utf16_decode(units) == None::<Seq<char>>);
            },
        }
    }
}

/// Round trip: decoding the encoding of any character sequence yields
/// exactly that sequence.
pub proof fn lemma_utf16_round_trip(chars: Seq<char>)
    ensures
        utf16_decode(utf16_encode(chars)) == Some(chars),
    decreases chars.len(),
{
    if chars.len() == 0 {
        assert(utf16_encode(chars).len() == 0);
        assert(chars =~= Seq::<char>::empty());
    } else {
        lemma_utf16_round_trip(chars.skip(1));
        lemma_decode_encode_char_prefix(chars[0], utf16_encode(chars.skip(1)));
        assert(seq![chars[0]] + chars.skip(1) =~= chars);
    }
}

/// The encoding is injective: distinct character sequences have distinct
/// encodings.
pub proof fn lemma_utf16_encode_injective(a: Seq<char>, b: Seq<char>)
    requires
        utf16_encode(a) == utf16_encode(b),
    ensures
        a == b,
{
    lemma_utf16_round_trip(a);
    lemma_utf16_round_trip(b);
}

/// Appending one character to a sequence appends its units to the encoding.
proof fn lemma_encode_push(chars: Seq<char>, c: char)
    ensures
        utf16_encode(chars.push(c)) == utf16_encode(chars) + encode_char(c),
    decreases chars.len(),
{
    if chars.len() == 0 {
        let p = chars.push(c);
        assert(p[0] == c);
        assert(p.skip(1) =~= Seq::<char>::empty());
        assert(utf16_encode(Seq::<char>::empty()) == Seq::<u16>::empty());
        assert(utf16_encode(p) == encode_char(c) + Seq::<u16>::empty());
        assert(encode_char(c) + Seq::<u16>::empty() =~= encode_char(c));
        assert(utf16_encode(chars) + encode_char(c) =~= encode_char(c));
    } else {
        assert(chars.push(c)[0] == chars[0]);
        assert(chars.push(c).skip(1) =~= chars.skip(1).push(c));
        lemma_encode_push(chars.skip(1), c);
        assert(encode_char(chars[0]) + (utf16_encode(chars.skip(1)) + encode_char(c)) =~= (
        encode_char(chars[0]) + utf16_encode(chars.skip(1))) + encode_char(c));
    }
}

/// The UTF-16 units for a host string, in order, with no terminator.
pub fn encode_utf16_str(s: &str) -> (r: Vec<u16>)
    ensures
        r@ == utf16_encode(s@),
{
    let n = s.unicode_len();
    let mut r: Vec<u16> = Vec::new();
    let mut i: usize = 0;
    while i < n
        invariant
            i <= n,
            n == s@.len(),
            r@ == utf16_encode(s@.take(i as int)),
        decreases n - i,
    {
        let c = s.get_char(i);
        let v = c as u32;
        proof {
            assert(s@.take(i + 1) =~= s@.take(i as int).push(s@[i as int]));
            lemma_encode_push(s@.take(i as int), s@[i as int]);
        }
        if v < 0x10000 {
            r.push(v as u16);
        } else {
            let d = v - 0x10000;
            proof {
                assert(d / 0x400 < 0x400) by (nonlinear_arith)
                    requires
                        0 <= d < 0x100000,
                ;
                assert(0 <= d % 0x400 < 0x400) by (nonlinear_arith)
                    requires
                        0 <= d,
                ;
            }
            r.push((0xD800 + d / 0x400) as u16);
            r.push((0xDC00 + d % 0x400) as u16);
            proof {
                assert(r@ =~= utf16_encode(s@.take(i as int)) + encode_char(s@[i as int]));
            }
        }
        i += 1;
    }
    proof {
        assert(s@.take(n as int) =~= s@);
    }
    r
}

/// Decodes the first `n` units of a buffer to a host string, rejecting
/// ill-formed sequences.
pub fn decode_utf16_prefix(buf: &Vec<u16>, n: usize) -> (r: Result<String, Error>)
    requires
        n <= buf@.len(),
    ensures
        (match utf16_decode(buf@.take(n as int)) {
            Some(cs) => r matches Ok(s) && s@ == cs,
            None => r == Err::<String, Error>(Error::Decode),
        }),
{
    let ghost whole = buf@.take(n as int);
    let mut out = String::new();
    let mut i: usize = 0;
    while i < n
        invariant
            i <= n,
            n <= buf@.len(),
            whole == buf@.take(n as int),
            utf16_decode(whole) == prepend_decoded(out@, utf16_decode(buf@.subrange(i as int, n as int))),
        decreases n - i,
    {
        let ghost rest = buf@.subrange(i as int, n as int);
        proof {
            assert(rest[0] == buf@[i as int]);
        }
        let u = buf[i];
        if u < 0xD800 || u >= 0xE000 {
            let c = match char::from_u32(u as u32) {
                Some(c) => c,
                None => {
                    proof {
                        assert(vstd::utf8::is_scalar(u as u32));
                        assert(false);
                    }
                    return Err(Error::Decode);
                },
            };
            proof {
                vstd::utf8::char_u32_cast(c, u as u32);
                assert((u as u32) as char == c);
                assert(rest.skip(1) =~= buf@.subrange(i + 1, n as int));
                let inner = utf16_decode(buf@.subrange(i + 1, n as int));
                match inner {
                    Some(tail) => {
                        assert(utf16_decode(rest) == Some(seq![c] + tail));
                        assert(out@ + (seq![c] + tail) =~= out@.push(c) + tail);
                    },
                    None => {
                        assert(utf16_decode(rest) == None::<Seq<char>>);
                    },
                }
            }
            out.push(c);
            i += 1;
        } else if u < 0xDC00 {
            if i + 1 >= n {
                proof {
                    assert(rest.len() < 2);
                    assert(utf16_decode(rest) == None::<Seq<char>>);
                    assert(utf16_decode(whole) == None::<Seq<char>>);
                }
                return Err(Error::Decode);
            }
            let lo = buf[i + 1];
            proof {
                assert(rest[1] == buf@[i + 1]);
            }
            if lo < 0xDC00 || lo >= 0xE000 {
                proof {
                    assert(!is_low_surrogate(lo));
                    assert(utf16_decode(rest) == None::<Seq<char>>);
                }
                return Err(Error::Decode);
            }
            let scalar = 0x10000 + ((u - 0xD800) as u32) * 0x400 + ((lo - 0xDC00) as u32);
            proof {
                assert(scalar == combined_scalar(u, lo));
                assert(vstd::utf8::is_scalar(scalar));
            }
            let c = match char::from_u32(scalar) {
                Some(c) => c,
                None => {
                    proof {
                        assert(false);
                    }
                    return Err(Error::Decode);
                },
            };
            proof {
                vstd::utf8::char_u32_cast(c, scalar);
                assert(scalar as char == c);
                assert(rest.skip(2) =~= buf@.subrange(i + 2, n as int));
                let inner = utf16_decode(buf@.subrange(i + 2, n as int));
                match inner {
                    Some(tail) => {
                        assert(utf16_decode(rest) == Some(seq![c] + tail));
                        assert(out@ + (seq![c] + tail) =~= out@.push(c) + tail);
                    },
                    None => {
                        assert(utf16_decode(rest) == None::<Seq<char>>);
                    },
                }
            }
            out.push(c);
            i += 2;
        } else {
            proof {
                assert(!is_single_unit(u) && !is_high_surrogate(u));
                assert(utf16_decode(rest) == None::<Seq<char>>);
            }
            return Err(Error::Decode);
        }
    }
    proof {
        assert(buf@.subrange(i as int, n as int) =~= Seq::<u16>::empty());
        assert(utf16_decode(buf@.subrange(i as int, n as int)) == Some(Seq::<char>::empty()));
        assert(out@ + Seq::<char>::empty() =~= out@);
    }
    Ok(out)
}

/// Reads a wide-string value as the native protocol prescribes: query the
/// length, allocate exactly one unit more, fill the buffer and add the
/// terminator, then decode the filled prefix, trimming the terminator.
pub fn marshal_wide(units: &Vec<u16>) -> (r: Result<String, Error>)
    ensures
        (match utf16_decode(units@) {
            Some(cs) => r matches Ok(s) && s@ == cs,
            None => r == Err::<String, Error>(Error::Decode),
        }),
{
    let len = units.len();
    let mut buf: Vec<u16> = Vec::new();
    let mut i: usize = 0;
    while i < len
        invariant
            i <= len,
            len == units@.len(),
            buf@ == units@.take(i as int),
        decreases len - i,
    {
        buf.push(units[i]);
        proof {
            assert(units@.take(i + 1) =~= units@.take(i as int).push(units@[i as int]));
        }
        i += 1;
    }
    buf.push(0);
    proof {
        assert(buf@.take(len as int) =~= units@);
    }
    decode_utf16_prefix(&buf, len)
}

} // verus!
