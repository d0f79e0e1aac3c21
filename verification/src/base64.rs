//! Standard base64 encoding with padding, verified against a direct
//! specification. It is used to form HTTP Basic Authorization values, the
//! same encoding the surrounding HTTP machinery would use.

use vstd::prelude::*;
use crate::text::push_char;

verus! {

/// The standard base64 alphabet.
pub open spec fn b64_alphabet() -> Seq<char> {
    "ABCDEFGHIJKLMNOPQRSTUVWXYZabcdefghijklmnopqrstuvwxyz0123456789+/"@
}

/// The alphabet character for a sextet value in 0..64.
pub open spec fn b64_char(i: int) -> char {
    b64_alphabet()[i]
}

/// Standard base64 with '=' padding: three input bytes become four output
/// characters; a final group of one or two bytes is padded.
pub open spec fn base64_of(bytes: Seq<u8>) -> Seq<char>
    decreases bytes.len(),
{
    if bytes.len() == 0 {
        Seq::empty()
    } else if bytes.len() == 1 {
        let b0 = bytes[0] as int;
        seq![b64_char(b0 / 4), b64_char((b0 % 4) * 16), '=', '=']
    } else if bytes.len() == 2 {
        let b0 = bytes[0] as int;
        let b1 = bytes[1] as int;
        seq![b64_char(b0 / 4), b64_char((b0 % 4) * 16 + b1 / 16), b64_char((b1 % 16) * 4), '=']
    } else {
        let b0 = bytes[0] as int;
        let b1 = bytes[1] as int;
        let b2 = bytes[2] as int;
        seq![
            b64_char(b0 / 4),
            b64_char((b0 % 4) * 16 + b1 / 16),
            b64_char((b1 % 16) * 4 + b2 / 64),
            b64_char(b2 % 64),
        ] + base64_of(bytes.skip(3))
    }
}

fn b64_char_at(i: u8) -> (c: char)
    requires
        i < 64,
    ensures
        c == b64_char(i as int),
{
    let alphabet = "ABCDEFGHIJKLMNOPQRSTUVWXYZabcdefghijklmnopqrstuvwxyz0123456789+/";
    proof {
        reveal_strlit("ABCDEFGHIJKLMNOPQRSTUVWXYZabcdefghijklmnopqrstuvwxyz0123456789+/");
    }
    alphabet.get_char(i as usize)
}

/// Appends the base64 encoding of `bytes[from..]` to `s`.
pub fn push_base64(s: &mut String, bytes: &Vec<u8>, from: usize)
    requires
        from <= bytes@.len(),
    ensures
        final(s)@ == old(s)@ + base64_of(bytes@.skip(from as int)),
    decreases bytes@.len() - from,
{
    let ghost chunk = bytes@.skip(from as int);
    let n = bytes.len() - from;
    if n == 0 {
        proof {
            assert(s@ =~= old(s)@ + base64_of(chunk));
        }
    } else if n == 1 {
        let b0 = bytes[from];
        push_char(s, b64_char_at(b0 / 4));
        push_char(s, b64_char_at((b0 % 4) * 16));
        push_char(s, '=');
        push_char(s, '=');
        proof {
            assert(chunk[0] == bytes@[from as int]);
            assert(s@ =~= old(s)@ + base64_of(chunk));
        }
    } else if n == 2 {
        let b0 = bytes[from];
        let b1 = bytes[from + 1];
        push_char(s, b64_char_at(b0 / 4));
        push_char(s, b64_char_at((b0 % 4) * 16 + b1 / 16));
        push_char(s, b64_char_at((b1 % 16) * 4));
        push_char(s, '=');
        proof {
            assert(chunk[0] == bytes@[from as int]);
            assert(chunk[1] == bytes@[from + 1]);
            assert(s@ =~= old(s)@ + base64_of(chunk));
        }
    } else {
        let b0 = bytes[from];
        let b1 = bytes[from + 1];
        let b2 = bytes[from + 2];
        push_char(s, b64_char_at(b0 / 4));
        push_char(s, b64_char_at((b0 % 4) * 16 + b1 / 16));
        push_char(s, b64_char_at((b1 % 16) * 4 + b2 / 64));
        push_char(s, b64_char_at(b2 % 64));
        push_base64(s, bytes, from + 3);
        proof {
            assert(chunk[0] == bytes@[from as int]);
            assert(chunk[1] == bytes@[from + 1]);
            assert(chunk[2] == bytes@[from + 2]);
            assert(chunk.skip(3) =~= bytes@.skip(from + 3));
            assert(s@ =~= old(s)@ + base64_of(chunk));
        }
    }
}

/// The base64 encoding of `bytes` as a fresh string.
pub fn base64_string(bytes: &Vec<u8>) -> (r: String)
    ensures
        r@ == base64_of(bytes@),
{
    let mut s = String::new();
    push_base64(&mut s, bytes, 0);
    proof {
        assert(bytes@.skip(0) =~= bytes@);
        assert(s@ =~= base64_of(bytes@));
    }
    s
}

} // verus!
