//! Parsing of demo input.
//!
//! The interactive drivers read lines and hand the trimmed bytes here: a
//! decimal byte value for the single-byte store, and a two-character entry
//! for the character-pair store. Each parser's contract says exactly which
//! inputs it accepts and what value they denote.

use vstd::prelude::*;

use crate::codec::CharPair;

verus! {

/// Whether `b` is an ASCII decimal digit.
pub open spec fn is_digit(b: u8) -> bool {
    48 <= b <= 57
}

/// The value of one digit.
pub open spec fn digit_val(b: u8) -> nat {
    (b - 48) as nat
}

/// Whether every byte of `s` is a digit.
pub open spec fn all_digits(s: Seq<u8>) -> bool {
    forall|i: int| 0 <= i < s.len() ==> is_digit(#[trigger] s[i])
}

/// The number a digit string denotes, most significant digit first.
pub open spec fn digits_value(s: Seq<u8>) -> nat
    decreases s.len(),
{
    if s.len() == 0 {
        0
    } else {
        digits_value(s.drop_last()) * 10 + digit_val(s.last())
    }
}

/// `s` without an optional leading plus sign.
pub open spec fn unsigned_body(s: Seq<u8>) -> Seq<u8> {
    if s.len() > 0 && s[0] == 43 {
        s.drop_first()
    } else {
        s
    }
}

/// The byte value a trimmed input denotes: after an optional leading `+`, one
/// or more decimal digits whose value is at most 255; anything else is
/// rejected.
pub open spec fn parse_u8_spec(s: Seq<u8>) -> Option<u8> {
    let t = unsigned_body(s);
    if t.len() > 0 && all_digits(t) && digits_value(t) <= 255 {
        Some(digits_value(t) as u8)
    } else {
        None
    }
}

/// Parses a decimal byte value from trimmed input bytes, accepting exactly
/// what [`parse_u8_spec`] accepts.
pub fn parse_u8(s: &[u8]) -> (r: Option<u8>)
    ensures
        r == parse_u8_spec(s@),
{
    let n: usize = s.len();
    let start: usize = if n > 0 && s[0] == 43 {
        1
    } else {
        0
    };
    proof {
        if start == 1 {
            assert(unsigned_body(s@) =~= s@.subrange(1, n as int));
        } else {
            assert(unsigned_body(s@) =~= s@.subrange(0, n as int));
        }
    }
    if n == start {
        return None;
    }
    let mut acc: u32 = 0;
    let mut i: usize = start;
    while i < n
        invariant
            start <= i <= n == s@.len(),
            unsigned_body(s@) == s@.subrange(start as int, n as int),
            all_digits(s@.subrange(start as int, i as int)),
            acc <= 256,
            acc <= 255 ==> acc == digits_value(s@.subrange(start as int, i as int)),
            acc == 256 ==> digits_value(s@.subrange(start as int, i as int)) > 255,
        decreases n - i,
    {
        let b = s[i];
        if b < 48 || b > 57 {
            proof {
                assert(!is_digit(unsigned_body(s@)[i - start]));
            }
            return None;
        }
        proof {
            assert(s@.subrange(start as int, i + 1).drop_last() =~= s@.subrange(
                start as int,
                i as int,
            ));
            assert(s@.subrange(start as int, i + 1).last() == s@[i as int]);
        }
        let d = (b - 48) as u32;
        acc = acc * 10 + d;
        if acc > 256 {
            acc = 256;
        }
        i = i + 1;
    }
    proof {
        assert(s@.subrange(start as int, n as int) =~= unsigned_body(s@));
    }
    if acc > 255 {
        None
    } else {
        Some(acc as u8)
    }
}

/// The character pair a trimmed input denotes: exactly two bytes, each an
/// ASCII character; anything longer, shorter or non-ASCII is rejected.
pub open spec fn char_pair_spec(s: Seq<u8>) -> Option<CharPair> {
    if s.len() == 2 && s[0] < 128 && s[1] < 128 {
        Some(CharPair { first: s[0] as char, second: s[1] as char })
    } else {
        None
    }
}

/// Parses a character pair from trimmed input bytes, accepting exactly what
/// [`char_pair_spec`] accepts.
pub fn parse_char_pair(s: &[u8]) -> (r: Option<CharPair>)
    ensures
        r == char_pair_spec(s@),
{
    if s.len() == 2 {
        let a = s[0];
        let b = s[1];
        if a < 128 && b < 128 {
            Some(CharPair { first: a as char, second: b as char })
        } else {
            None
        }
    } else {
        None
    }
}

} // verus!
