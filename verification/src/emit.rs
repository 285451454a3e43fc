//! Low-level text emission: appending literal text, decimal and hexadecimal
//! numbers, and escaped raw bytes to a byte buffer.
//!
//! Every rendered line of this crate is a sequence of bytes; the spec
//! functions here say exactly which bytes each primitive appends.

use vstd::prelude::*;
use vstd::string::*;
use vstd::utf8::is_ascii_chars;
use vstd::utf8::is_ascii_chars_encode_utf8;

verus! {

/// The character for a single decimal digit.
pub open spec fn spec_dec_digit(d: nat) -> u8
    recommends
        d < 10,
{
    (0x30 + d) as u8
}

/// The character for a single hexadecimal digit, uppercase.
pub open spec fn spec_hex_digit(d: nat) -> u8
    recommends
        d < 16,
{
    if d < 10 {
        (0x30 + d) as u8
    } else {
        (0x41 + (d - 10)) as u8
    }
}

/// Decimal rendering of `n`: most significant digit first, no sign, no
/// padding, and a single `0` for zero.
pub open spec fn spec_dec(n: nat) -> Seq<u8>
    decreases n,
{
    if n < 10 {
        seq![spec_dec_digit(n)]
    } else {
        spec_dec(n / 10).push(spec_dec_digit(n % 10))
    }
}

/// Decimal rendering of `n` zero-padded on the left to at least two digits.
pub open spec fn spec_dec2(n: nat) -> Seq<u8> {
    if n < 10 {
        seq![spec_dec_digit(0)] + spec_dec(n)
    } else {
        spec_dec(n)
    }
}

/// Uppercase hexadecimal rendering of `n`: no `0x`, no padding, and a single
/// `0` for zero.
pub open spec fn spec_hex(n: nat) -> Seq<u8>
    decreases n,
{
    if n < 16 {
        seq![spec_hex_digit(n)]
    } else {
        spec_hex(n / 16).push(spec_hex_digit(n % 16))
    }
}

/// A rendered number is never empty.
pub proof fn lemma_dec_len(n: nat)
    ensures
        spec_dec(n).len() >= 1,
    decreases n,
{
    if n >= 10 {
        lemma_dec_len(n / 10);
    }
}

/// A byte that is shown as itself: an ASCII graphic character or the space.
pub open spec fn spec_display_byte(v: u8) -> bool {
    0x20 <= v <= 0x7e
}

/// The display token for one raw byte: the byte itself when displayable,
/// otherwise the six-byte escape `\x0xHH` with two uppercase hex digits.
pub open spec fn spec_byte_token(v: u8) -> Seq<u8> {
    if spec_display_byte(v) {
        seq![v]
    } else {
        "\\x0x".spec_bytes() + seq![spec_hex_digit((v / 16) as nat), spec_hex_digit((v % 16) as nat)]
    }
}

/// Law: the display-token mapping is total over bytes and pins each token
/// down — a displayable byte (ASCII graphic or space) maps to itself as a
/// single character, and every other byte maps to the six-character escape
/// `\x0xHH`, whose last two characters are uppercase hexadecimal digits.
pub proof fn lemma_byte_token_shape(v: u8)
    ensures
        spec_display_byte(v) <==> 0x20 <= v <= 0x7e,
        spec_display_byte(v) ==> spec_byte_token(v) == seq![v],
        !spec_display_byte(v) ==> spec_byte_token(v) == seq![
            0x5Cu8,
            0x78u8,
            0x30u8,
            0x78u8,
            spec_hex_digit((v / 16) as nat),
            spec_hex_digit((v % 16) as nat),
        ],
        spec_byte_token(v).len() == if spec_display_byte(v) {
            1int
        } else {
            6int
        },
        !spec_display_byte(v) ==> (0x30 <= spec_byte_token(v)[4] <= 0x39 || 0x41
            <= spec_byte_token(v)[4] <= 0x46),
        !spec_display_byte(v) ==> (0x30 <= spec_byte_token(v)[5] <= 0x39 || 0x41
            <= spec_byte_token(v)[5] <= 0x46),
{
    if !spec_display_byte(v) {
        reveal_strlit("\\x0x");
        assert(is_ascii_chars("\\x0x"@));
        is_ascii_chars_encode_utf8("\\x0x"@);
        assert("\\x0x".spec_bytes() =~= seq![0x5Cu8, 0x78u8, 0x30u8, 0x78u8]);
        assert(spec_byte_token(v) =~= seq![
            0x5Cu8,
            0x78u8,
            0x30u8,
            0x78u8,
            spec_hex_digit((v / 16) as nat),
            spec_hex_digit((v % 16) as nat),
        ]);
    }
}

/// Appends a byte sequence to `out`.
pub fn push_bytes(out: &mut Vec<u8>, bytes: &[u8])
    ensures
        final(out)@ == old(out)@ + bytes@,
{
    let n: usize = bytes.len();
    let mut i: usize = 0;
    while i < n
        invariant
            n == bytes@.len(),
            i <= n,
            out@ == old(out)@ + bytes@.take(i as int),
        decreases n - i,
    {
        out.push(bytes[i]);
        proof {
            assert(old(out)@ + bytes@.take(i as int) + seq![bytes@[i as int]] =~= old(out)@
                + bytes@.take(i + 1));
        }
        i = i + 1;
    }
    proof {
        assert(bytes@.take(n as int) =~= bytes@);
    }
}

/// Appends the UTF-8 bytes of `s` to `out`.
pub fn push_str_bytes(out: &mut Vec<u8>, s: &str)
    ensures
        final(out)@ == old(out)@ + s.spec_bytes(),
{
    push_bytes(out, s.as_bytes());
}

/// The character for a single hexadecimal digit, uppercase.
pub fn hex_digit(d: u8) -> (r: u8)
    requires
        d < 16,
    ensures
        r == spec_hex_digit(d as nat),
{
    if d < 10 {
        0x30 + d
    } else {
        0x41 + (d - 10)
    }
}

/// Appends the decimal rendering of `n` to `out`.
pub fn push_dec(out: &mut Vec<u8>, n: u64)
    ensures
        final(out)@ == old(out)@ + spec_dec(n as nat),
    decreases n,
{
    if n < 10 {
        out.push(0x30 + n as u8);
        proof {
            assert(out@ =~= old(out)@ + spec_dec(n as nat));
        }
    } else {
        push_dec(out, n / 10);
        out.push(0x30 + (n % 10) as u8);
        proof {
            assert(out@ =~= old(out)@ + spec_dec(n as nat));
        }
    }
}

/// Appends the decimal rendering of `n`, zero-padded to two digits, to `out`.
pub fn push_dec2(out: &mut Vec<u8>, n: u64)
    ensures
        final(out)@ == old(out)@ + spec_dec2(n as nat),
{
    if n < 10 {
        out.push(0x30);
    }
    push_dec(out, n);
    proof {
        assert(out@ =~= old(out)@ + spec_dec2(n as nat));
    }
}

/// Appends the uppercase hexadecimal rendering of `n` to `out`.
pub fn push_hex(out: &mut Vec<u8>, n: u64)
    ensures
        final(out)@ == old(out)@ + spec_hex(n as nat),
    decreases n,
{
    if n < 16 {
        out.push(hex_digit(n as u8));
        proof {
            assert(out@ =~= old(out)@ + spec_hex(n as nat));
        }
    } else {
        push_hex(out, n / 16);
        out.push(hex_digit((n % 16) as u8));
        proof {
            assert(out@ =~= old(out)@ + spec_hex(n as nat));
        }
    }
}

/// Appends the display token of the byte `v` to `out`.
pub fn push_byte_token(out: &mut Vec<u8>, v: u8)
    ensures
        final(out)@ == old(out)@ + spec_byte_token(v),
{
    if 0x20 <= v && v <= 0x7e {
        out.push(v);
        proof {
            assert(out@ =~= old(out)@ + spec_byte_token(v));
        }
    } else {
        push_str_bytes(out, "\\x0x");
        out.push(hex_digit(v / 16));
        out.push(hex_digit(v % 16));
        proof {
            assert(out@ =~= old(out)@ + spec_byte_token(v));
        }
    }
}

} // verus!
