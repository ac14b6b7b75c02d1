//! UTF-8 transcoding primitives: validation with the exact offset of the
//! first invalid byte, decoding to text, codepoint counting, and flooring a
//! byte count to the nearest character boundary.

use vstd::prelude::*;
use vstd::slice::slice_subrange;
use vstd::utf8::decode_utf8;
use vstd::utf8::is_char_boundary;
use vstd::utf8::is_continuation_byte;
use vstd::utf8::is_leading_byte_width_1;
use vstd::utf8::is_leading_byte_width_2;
use vstd::utf8::is_leading_byte_width_3;
use vstd::utf8::is_leading_byte_width_4;
use vstd::utf8::length_of_first_scalar;
use vstd::utf8::partial_valid_utf8;
use vstd::utf8::partial_valid_partial_invalid_utf8;
use vstd::utf8::valid_first_scalar;
use vstd::utf8::valid_utf8;

verus! {

broadcast use
    vstd::utf8::partial_valid_utf8_extend,
    vstd::utf8::is_char_boundary_iff_not_is_continuation_byte,
    vstd::utf8::is_char_boundary_start_end_of_seq,
    vstd::utf8::valid_utf8_split,
;

/// The largest character boundary of `s` at or below `n`.
pub open spec fn floor_char_boundary(s: Seq<u8>, n: int) -> int
    recommends
        valid_utf8(s),
    decreases n,
{
    if n <= 0 {
        0
    } else if is_char_boundary(s, n) {
        n
    } else {
        floor_char_boundary(s, n - 1)
    }
}

/// A one-byte scalar at the head of `s`.
proof fn scalar1_valid(s: Seq<u8>)
    requires
        s.len() >= 1,
        is_leading_byte_width_1(s[0]),
    ensures
        valid_first_scalar(s),
        length_of_first_scalar(s) == 1,
{
}

/// A two-byte scalar at the head of `s`; leading bytes `0xc0` and `0xc1`
/// would be overlong and are excluded.
proof fn scalar2_valid(s: Seq<u8>)
    requires
        s.len() >= 2,
        0xc2 <= s[0] <= 0xdf,
        is_continuation_byte(s[1]),
    ensures
        valid_first_scalar(s),
        length_of_first_scalar(s) == 2,
{
    let b0 = s[0];
    let b1 = s[1];
    assert(0x80 <= (((b0 & 0x1f) as u32) << 6 | ((b1 & 0x3f) as u32)) < 0x800) by (bit_vector)
        requires
            0xc2 <= b0 <= 0xdf,
    ;
}

/// A three-byte scalar at the head of `s`, excluding overlong encodings
/// (`0xe0` followed by a byte under `0xa0`) and the surrogate range (`0xed`
/// followed by a byte at or above `0xa0`).
proof fn scalar3_valid(s: Seq<u8>)
    requires
        s.len() >= 3,
        0xe0 <= s[0] <= 0xef,
        is_continuation_byte(s[1]),
        is_continuation_byte(s[2]),
        s[0] == 0xe0 ==> s[1] >= 0xa0,
        s[0] == 0xed ==> s[1] < 0xa0,
    ensures
        valid_first_scalar(s),
        length_of_first_scalar(s) == 3,
{
    let b0 = s[0];
    let b1 = s[1];
    let b2 = s[2];
    let cp = ((b0 & 0x0f) as u32) << 12 | ((b1 & 0x3f) as u32) << 6 | ((b2 & 0x3f) as u32);
    assert(cp >= 0x800 && !(0xd800 <= cp <= 0xdfff)) by (bit_vector)
        requires
            cp == ((b0 & 0x0f) as u32) << 12 | ((b1 & 0x3f) as u32) << 6 | ((b2 & 0x3f) as u32),
            0xe0 <= b0 <= 0xef,
            0x80 <= b1 <= 0xbf,
            b0 == 0xe0 ==> b1 >= 0xa0,
            b0 == 0xed ==> b1 < 0xa0,
    ;
}

/// A four-byte scalar at the head of `s`, excluding overlong encodings
/// (`0xf0` followed by a byte under `0x90`) and values past the last scalar
/// (`0xf4` with a byte at or above `0x90`, or any larger leading byte).
proof fn scalar4_valid(s: Seq<u8>)
    requires
        s.len() >= 4,
        0xf0 <= s[0] <= 0xf4,
        is_continuation_byte(s[1]),
        is_continuation_byte(s[2]),
        is_continuation_byte(s[3]),
        s[0] == 0xf0 ==> s[1] >= 0x90,
        s[0] == 0xf4 ==> s[1] < 0x90,
    ensures
        valid_first_scalar(s),
        length_of_first_scalar(s) == 4,
{
    let b0 = s[0];
    let b1 = s[1];
    let b2 = s[2];
    let b3 = s[3];
    let cp = ((b0 & 0x07) as u32) << 18 | ((b1 & 0x3f) as u32) << 12 | ((b2 & 0x3f) as u32) << 6 | (
    (b3 & 0x3f) as u32);
    assert(0x10000 <= cp <= 0x10ffff) by (bit_vector)
        requires
            cp == ((b0 & 0x07) as u32) << 18 | ((b1 & 0x3f) as u32) << 12 | ((b2 & 0x3f) as u32)
                << 6 | ((b3 & 0x3f) as u32),
            0xf0 <= b0 <= 0xf4,
            0x80 <= b1 <= 0xbf,
            b0 == 0xf0 ==> b1 >= 0x90,
            b0 == 0xf4 ==> b1 < 0x90,
    ;
}

/// No scalar starts with a continuation byte or a byte above `0xf7`.
proof fn lead_byte_invalid(s: Seq<u8>)
    requires
        s.len() >= 1,
        !is_leading_byte_width_1(s[0]),
        !is_leading_byte_width_2(s[0]),
        !is_leading_byte_width_3(s[0]),
        !is_leading_byte_width_4(s[0]),
    ensures
        !valid_first_scalar(s),
{
}

/// A two-byte lead whose continuation is missing or malformed, or whose
/// encoding would be overlong, heads no valid scalar.
proof fn scalar2_invalid(s: Seq<u8>)
    requires
        s.len() >= 1,
        0xc0 <= s[0] <= 0xdf,
        s.len() >= 2 && is_continuation_byte(s[1]) ==> s[0] <= 0xc1,
    ensures
        !valid_first_scalar(s),
{
    if s.len() >= 2 && is_continuation_byte(s[1]) {
        let b0 = s[0];
        let b1 = s[1];
        assert((((b0 & 0x1f) as u32) << 6 | ((b1 & 0x3f) as u32)) < 0x80) by (bit_vector)
            requires
                0xc0 <= b0 <= 0xc1,
        ;
    }
}

/// A three-byte lead with missing or malformed continuations, an overlong
/// encoding, or a surrogate value heads no valid scalar.
proof fn scalar3_invalid(s: Seq<u8>)
    requires
        s.len() >= 1,
        0xe0 <= s[0] <= 0xef,
        (s.len() >= 3 && is_continuation_byte(s[1]) && is_continuation_byte(s[2])) ==> ((s[0]
            == 0xe0 && s[1] < 0xa0) || (s[0] == 0xed && s[1] >= 0xa0)),
    ensures
        !valid_first_scalar(s),
{
    if s.len() >= 3 && is_continuation_byte(s[1]) && is_continuation_byte(s[2]) {
        let b0 = s[0];
        let b1 = s[1];
        let b2 = s[2];
        let cp = ((b0 & 0x0f) as u32) << 12 | ((b1 & 0x3f) as u32) << 6 | ((b2 & 0x3f) as u32);
        assert(cp < 0x800 || 0xd800 <= cp <= 0xdfff) by (bit_vector)
            requires
                cp == ((b0 & 0x0f) as u32) << 12 | ((b1 & 0x3f) as u32) << 6 | ((b2 & 0x3f)
                    as u32),
                0x80 <= b1 <= 0xbf,
                (b0 == 0xe0 && b1 < 0xa0) || (b0 == 0xed && b1 >= 0xa0),
        ;
    }
}

/// A four-byte lead with missing or malformed continuations, an overlong
/// encoding, or a value past the last scalar heads no valid scalar.
proof fn scalar4_invalid(s: Seq<u8>)
    requires
        s.len() >= 1,
        0xf0 <= s[0] <= 0xf7,
        (s.len() >= 4 && is_continuation_byte(s[1]) && is_continuation_byte(s[2])
            && is_continuation_byte(s[3])) ==> ((s[0] == 0xf0 && s[1] < 0x90) || s[0] > 0xf4 || (
        s[0] == 0xf4 && s[1] >= 0x90)),
    ensures
        !valid_first_scalar(s),
{
    if s.len() >= 4 && is_continuation_byte(s[1]) && is_continuation_byte(s[2])
        && is_continuation_byte(s[3]) {
        let b0 = s[0];
        let b1 = s[1];
        let b2 = s[2];
        let b3 = s[3];
        let cp = ((b0 & 0x07) as u32) << 18 | ((b1 & 0x3f) as u32) << 12 | ((b2 & 0x3f) as u32)
            << 6 | ((b3 & 0x3f) as u32);
        assert(!(0x10000 <= cp <= 0x10ffff)) by (bit_vector)
            requires
                cp == ((b0 & 0x07) as u32) << 18 | ((b1 & 0x3f) as u32) << 12 | ((b2 & 0x3f) as u32)
                    << 6 | ((b3 & 0x3f) as u32),
                0xf0 <= b0 <= 0xf7,
                0x80 <= b1 <= 0xbf,
                (b0 == 0xf0 && b1 < 0x90) || b0 > 0xf4 || (b0 == 0xf4 && b1 >= 0x90),
        ;
    }
}

/// Checks whether `v` is valid UTF-8; when it is not, reports the byte
/// offset of the first invalid byte: everything before the offset decodes,
/// and no scalar encoding starts there.
pub fn utf8_check(v: &[u8]) -> (r: Result<(), usize>)
    ensures
        r is Ok <==> valid_utf8(v@),
        r matches Err(i) ==> {
            &&& i < v@.len()
            &&& partial_valid_utf8(v@, i as int)
            &&& !valid_first_scalar(v@.subrange(i as int, v@.len() as int))
        },
{
    let n = v.len();
    let mut i: usize = 0;
    while i < n
        invariant
            n == v@.len(),
            i <= n,
            partial_valid_utf8(v@, i as int),
        decreases n - i,
    {
        let ghost sub = v@.subrange(i as int, n as int);
        let b0 = v[i];
        if b0 < 0x80 {
            proof {
                scalar1_valid(sub);
            }
            i = i + 1;
        } else if 0xc0 <= b0 && b0 <= 0xdf {
            if n - i < 2 || !(0x80 <= v[i + 1] && v[i + 1] <= 0xbf) || b0 <= 0xc1 {
                proof {
                    scalar2_invalid(sub);
                    assert(!valid_utf8(sub));
                    partial_valid_partial_invalid_utf8(v@, i as int);
                }
                return Err(i);
            }
            proof {
                scalar2_valid(sub);
            }
            i = i + 2;
        } else if 0xe0 <= b0 && b0 <= 0xef {
            if n - i < 3 || !(0x80 <= v[i + 1] && v[i + 1] <= 0xbf) || !(0x80 <= v[i + 2] && v[i
                + 2] <= 0xbf) || (b0 == 0xe0 && v[i + 1] < 0xa0) || (b0 == 0xed && v[i + 1]
                >= 0xa0) {
                proof {
                    scalar3_invalid(sub);
                    assert(!valid_utf8(sub));
                    partial_valid_partial_invalid_utf8(v@, i as int);
                }
                return Err(i);
            }
            proof {
                scalar3_valid(sub);
            }
            i = i + 3;
        } else if 0xf0 <= b0 && b0 <= 0xf7 {
            if n - i < 4 || !(0x80 <= v[i + 1] && v[i + 1] <= 0xbf) || !(0x80 <= v[i + 2] && v[i
                + 2] <= 0xbf) || !(0x80 <= v[i + 3] && v[i + 3] <= 0xbf) || (b0 == 0xf0 && v[i + 1]
                < 0x90) || b0 > 0xf4 || (b0 == 0xf4 && v[i + 1] >= 0x90) {
                proof {
                    scalar4_invalid(sub);
                    assert(!valid_utf8(sub));
                    partial_valid_partial_invalid_utf8(v@, i as int);
                }
                return Err(i);
            }
            proof {
                scalar4_valid(sub);
            }
            i = i + 4;
        } else {
            proof {
                lead_byte_invalid(sub);
                assert(!valid_utf8(sub));
                partial_valid_partial_invalid_utf8(v@, i as int);
            }
            return Err(i);
        }
    }
    proof {
        assert(v@.subrange(0, n as int) =~= v@);
    }
    Ok(())
}

/// Relies on `String::from_utf8`: on bytes that are valid UTF-8 it returns
/// the string made of exactly those bytes, whose characters are their UTF-8
/// decoding.
#[verifier::external_body]
fn string_from_utf8(v: Vec<u8>) -> (r: String)
    requires
        valid_utf8(v@),
    ensures
        r@ == decode_utf8(v@),
{
    match String::from_utf8(v) {
        Ok(s) => s,
        Err(_) => String::new(),
    }
}

/// Decodes `v` as UTF-8, or reports the byte offset of the first invalid
/// byte.
pub fn decode_text(v: Vec<u8>) -> (r: Result<String, usize>)
    ensures
        r is Ok <==> valid_utf8(v@),
        r matches Ok(s) ==> s@ == decode_utf8(v@),
        r matches Err(i) ==> {
            &&& i < v@.len()
            &&& partial_valid_utf8(v@, i as int)
            &&& !valid_first_scalar(v@.subrange(i as int, v@.len() as int))
        },
{
    match utf8_check(v.as_slice()) {
        Ok(()) => Ok(string_from_utf8(v)),
        Err(i) => Err(i),
    }
}

/// Counts the characters encoded in `v`, which must be valid UTF-8.
pub fn count_utf8_chars(v: &[u8]) -> (r: usize)
    requires
        valid_utf8(v@),
    ensures
        r == decode_utf8(v@).len(),
{
    let n = v.len();
    let mut i: usize = 0;
    let mut count: usize = 0;
    proof {
        assert(v@.subrange(0, n as int) =~= v@);
    }
    while i < n
        invariant
            n == v@.len(),
            i <= n,
            valid_utf8(v@),
            count <= i,
            valid_utf8(v@.subrange(i as int, n as int)),
            count + decode_utf8(v@.subrange(i as int, n as int)).len() == decode_utf8(v@).len(),
        decreases n - i,
    {
        let ghost sub = v@.subrange(i as int, n as int);
        let b0 = v[i];
        let step: usize = if b0 < 0x80 {
            1
        } else if 0xc0 <= b0 && b0 <= 0xdf {
            2
        } else if 0xe0 <= b0 && b0 <= 0xef {
            3
        } else {
            4
        };
        proof {
            assert(valid_first_scalar(sub));
            assert(length_of_first_scalar(sub) == step);
            assert(i + step <= n);
            assert(vstd::utf8::pop_first_scalar(sub) =~= v@.subrange(i + step, n as int));
            assert(decode_utf8(sub).len() == 1 + decode_utf8(v@.subrange(i + step, n as int)).len());
        }
        i = i + step;
        count = count + 1;
    }
    proof {
        assert(v@.subrange(n as int, n as int) =~= Seq::<u8>::empty());
    }
    count
}

/// The largest character boundary of `v` at or below `n`, for valid UTF-8.
pub fn utf8_floor_boundary(v: &[u8], n: usize) -> (r: usize)
    requires
        valid_utf8(v@),
        n <= v@.len(),
    ensures
        r <= n,
        r == floor_char_boundary(v@, n as int),
        is_char_boundary(v@, r as int),
        valid_utf8(v@.subrange(0, r as int)),
{
    let mut r = n;
    while r > 0 && r < v.len() && 0x80 <= v[r] && v[r] <= 0xbf
        invariant
            r <= n <= v@.len(),
            valid_utf8(v@),
            floor_char_boundary(v@, n as int) == floor_char_boundary(v@, r as int),
        decreases r,
    {
        proof {
            assert(is_continuation_byte(v@[r as int]));
            vstd::utf8::is_char_boundary_iff_not_is_continuation_byte(v@, r as int);
            assert(floor_char_boundary(v@, r as int) == floor_char_boundary(v@, r - 1));
        }
        r = r - 1;
    }
    proof {
        if r == 0 {
            assert(is_char_boundary(v@, 0));
        } else if r == v@.len() {
            vstd::utf8::is_char_boundary_start_end_of_seq(v@);
        } else {
            assert(!is_continuation_byte(v@[r as int]));
            vstd::utf8::is_char_boundary_iff_not_is_continuation_byte(v@, r as int);
        }
        lemma_floor_boundary_fixed(v@, r as int);
    }
    r
}

/// Flooring stops at a character boundary.
proof fn lemma_floor_boundary_fixed(s: Seq<u8>, r: int)
    requires
        0 <= r,
        is_char_boundary(s, r),
    ensures
        floor_char_boundary(s, r) == r,
{
    if r == 0 {
        assert(floor_char_boundary(s, 0) == 0);
    }
}

/// Counts the characters of `bytes` whose whole encoding lies within its
/// first `written` bytes: the count of the decoded prefix that ends at the
/// last character boundary at or before `written`.
pub fn count_written_chars(bytes: &[u8], written: usize) -> (r: usize)
    requires
        valid_utf8(bytes@),
        written <= bytes@.len(),
    ensures
        r == decode_utf8(bytes@.subrange(0, floor_char_boundary(bytes@, written as int))).len(),
{
    let f = utf8_floor_boundary(bytes, written);
    let prefix = slice_subrange(bytes, 0, f);
    count_utf8_chars(prefix)
}

} // verus!
