//! A verified UTF-8 validity check over raw bytes.
//!
//! Comment segments carry raw bytes that are shown as text only when they
//! form valid UTF-8. The checker here decides that, and is proved equivalent
//! to `vstd::utf8::valid_utf8`.

use vstd::prelude::*;
use vstd::utf8::*;

verus! {

/// The suffix of `bytes` that starts at index `i`.
pub open spec fn suffix_from(bytes: Seq<u8>, i: int) -> Seq<u8> {
    bytes.subrange(i, bytes.len() as int)
}

/// Examines the encoding of one scalar starting at index `i`. Returns
/// `(true, k)` when a well-formed `k`-byte scalar encoding starts there, and
/// `(false, _)` when the suffix from `i` is not valid UTF-8.
fn first_scalar_width(data: &[u8], i: usize) -> (r: (bool, usize))
    requires
        i < data@.len(),
    ensures
        r.0 ==> valid_first_scalar(suffix_from(data@, i as int)) && r.1
            == length_of_first_scalar(suffix_from(data@, i as int)) && i + r.1 <= data@.len(),
        !r.0 ==> !valid_utf8(suffix_from(data@, i as int)),
{
    let ghost s = suffix_from(data@, i as int);
    let n: usize = data.len();
    let b0 = data[i];
    proof {
        assert(s.len() == n - i);
        assert(s[0] == b0);
    }
    if b0 < 0x80 {
        // A one-byte encoding: never overlong, never in the surrogate range.
        (true, 1)
    } else if b0 < 0xC0 {
        // A continuation byte cannot begin a scalar's encoding.
        (false, 0)
    } else if b0 < 0xE0 {
        if n - i < 2 {
            return (false, 0);
        }
        let b1 = data[i + 1];
        proof {
            assert(s[1] == b1);
        }
        if !(0x80 <= b1 && b1 <= 0xBF) {
            return (false, 0);
        }
        let cp: u32 = (((b0 & 0x1F) as u32) << 6u32) | ((b1 & 0x3F) as u32);
        proof {
            assert(cp == decode_first_codepoint(s));
        }
        if cp < 0x80 || (0xD800 <= cp && cp <= 0xDFFF) {
            return (false, 0);
        }
        (true, 2)
    } else if b0 < 0xF0 {
        if n - i < 3 {
            return (false, 0);
        }
        let b1 = data[i + 1];
        let b2 = data[i + 2];
        proof {
            assert(s[1] == b1);
            assert(s[2] == b2);
        }
        if !(0x80 <= b1 && b1 <= 0xBF) || !(0x80 <= b2 && b2 <= 0xBF) {
            return (false, 0);
        }
        let cp: u32 = (((b0 & 0x0F) as u32) << 12u32) | (((b1 & 0x3F) as u32) << 6u32) | ((b2
            & 0x3F) as u32);
        proof {
            assert(cp == decode_first_codepoint(s));
        }
        if cp < 0x800 || (0xD800 <= cp && cp <= 0xDFFF) {
            return (false, 0);
        }
        (true, 3)
    } else if b0 < 0xF8 {
        if n - i < 4 {
            return (false, 0);
        }
        let b1 = data[i + 1];
        let b2 = data[i + 2];
        let b3 = data[i + 3];
        proof {
            assert(s[1] == b1);
            assert(s[2] == b2);
            assert(s[3] == b3);
        }
        if !(0x80 <= b1 && b1 <= 0xBF) || !(0x80 <= b2 && b2 <= 0xBF) || !(0x80 <= b3 && b3
            <= 0xBF) {
            return (false, 0);
        }
        let cp: u32 = (((b0 & 0x07) as u32) << 18u32) | (((b1 & 0x3F) as u32) << 12u32) | (((b2
            & 0x3F) as u32) << 6u32) | ((b3 & 0x3F) as u32);
        proof {
            assert(cp == decode_first_codepoint(s));
        }
        if cp < 0x10000 || cp > 0x10FFFF || (0xD800 <= cp && cp <= 0xDFFF) {
            return (false, 0);
        }
        (true, 4)
    } else {
        // 0xF8..=0xFF fits no leading-byte form.
        (false, 0)
    }
}

/// Decides whether `data` is a valid UTF-8 encoding.
pub fn is_valid_utf8(data: &[u8]) -> (r: bool)
    ensures
        r == valid_utf8(data@),
{
    let n: usize = data.len();
    let mut i: usize = 0;
    while i < n
        invariant
            i <= n,
            n == data@.len(),
            partial_valid_utf8(data@, i as int),
        decreases n - i,
    {
        let (ok, width) = first_scalar_width(data, i);
        if !ok {
            proof {
                partial_valid_partial_invalid_utf8(data@, i as int);
            }
            return false;
        }
        proof {
            partial_valid_utf8_extend(data@, i as int);
        }
        i = i + width;
    }
    proof {
        assert(data@.subrange(0, data@.len() as int) =~= data@);
    }
    true
}

} // verus!
