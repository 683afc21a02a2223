//! Byte codec for stored values.
//!
//! The region stores one value of a caller-chosen type. All processes sharing
//! a region agree out of band on that type; the store itself only moves
//! bytes. Instead of reinterpreting raw memory, a storable type declares a
//! fixed byte layout here and every read or write goes through an explicit
//! encode/decode step. Decoding is total over byte strings of the declared
//! length, and decoding an encoding gives the value back — so a value written
//! by one process is read back bit-for-bit by any other.

use vstd::prelude::*;

verus! {

/// A fixed-size, plain-data value that can live in the shared region.
///
/// `from_bytes_spec` is total over byte strings of length `size_spec()`, and
/// every implementation proves the round-trip law `lemma_round_trip`: decoding
/// an encoding yields the encoded value.
pub trait FixedBytes: Sized + Copy {
    /// Exact length of the encoding, in bytes.
    spec fn size_spec() -> nat;

    /// The value's encoding.
    spec fn to_bytes_spec(self) -> Seq<u8>;

    /// The value a byte string of length `size_spec()` decodes to.
    spec fn from_bytes_spec(b: Seq<u8>) -> Self;

    /// The value a read falls back to when the lock cannot be acquired.
    spec fn default_spec() -> Self;

    /// An encoding always has the declared length.
    proof fn lemma_size(self)
        ensures
            self.to_bytes_spec().len() == Self::size_spec(),
    ;

    /// Decoding an encoding gives the encoded value back.
    proof fn lemma_round_trip(self)
        ensures
            Self::from_bytes_spec(self.to_bytes_spec()) == self,
    ;

    /// The declared encoding length.
    fn size() -> (n: usize)
        ensures
            n == Self::size_spec(),
    ;

    /// Encodes the value.
    fn to_bytes(&self) -> (r: Vec<u8>)
        ensures
            r@ == self.to_bytes_spec(),
            r@.len() == Self::size_spec(),
    ;

    /// Decodes a byte string of the declared length.
    fn from_bytes(b: &[u8]) -> (r: Self)
        requires
            b@.len() == Self::size_spec(),
        ensures
            r == Self::from_bytes_spec(b@),
    ;

    /// The fallback value for a failed read.
    fn default_value() -> (r: Self)
        ensures
            r == Self::default_spec(),
    ;
}

impl FixedBytes for u8 {
    open spec fn size_spec() -> nat {
        1
    }

    open spec fn to_bytes_spec(self) -> Seq<u8> {
        seq![self]
    }

    open spec fn from_bytes_spec(b: Seq<u8>) -> Self {
        b[0]
    }

    open spec fn default_spec() -> Self {
        0u8
    }

    proof fn lemma_size(self) {
    }

    proof fn lemma_round_trip(self) {
    }

    fn size() -> (n: usize) {
        1
    }

    fn to_bytes(&self) -> (r: Vec<u8>) {
        let mut r: Vec<u8> = Vec::new();
        r.push(*self);
        proof {
            assert(r@ =~= self.to_bytes_spec());
        }
        r
    }

    fn from_bytes(b: &[u8]) -> (r: Self) {
        b[0]
    }

    fn default_value() -> (r: Self) {
        0
    }
}

/// A pair of bytes, stored side by side.
#[derive(Clone, Copy, PartialEq, Eq, Structural, Debug)]
pub struct BytePair {
    pub first: u8,
    pub second: u8,
}

impl FixedBytes for BytePair {
    open spec fn size_spec() -> nat {
        2
    }

    open spec fn to_bytes_spec(self) -> Seq<u8> {
        seq![self.first, self.second]
    }

    open spec fn from_bytes_spec(b: Seq<u8>) -> Self {
        BytePair { first: b[0], second: b[1] }
    }

    open spec fn default_spec() -> Self {
        BytePair { first: 0, second: 0 }
    }

    proof fn lemma_size(self) {
    }

    proof fn lemma_round_trip(self) {
    }

    fn size() -> (n: usize) {
        2
    }

    fn to_bytes(&self) -> (r: Vec<u8>) {
        let mut r: Vec<u8> = Vec::new();
        r.push(self.first);
        r.push(self.second);
        proof {
            assert(r@ =~= self.to_bytes_spec());
        }
        r
    }

    fn from_bytes(b: &[u8]) -> (r: Self) {
        BytePair { first: b[0], second: b[1] }
    }

    fn default_value() -> (r: Self) {
        BytePair { first: 0, second: 0 }
    }
}

/// Whether `u` is a Unicode scalar value, i.e. the code of some `char`.
pub open spec fn is_scalar_value(u: u32) -> bool {
    u < 0xD800 || (0xE000 <= u && u <= 0x10FFFF)
}

/// The `char` with code `u`, or the nul character where `u` is no scalar
/// value (a decode never fails; joiners agree on the type out of band, so an
/// invalid code only appears when that convention was broken).
pub open spec fn char_from_code(u: u32) -> char {
    if is_scalar_value(u) {
        u as char
    } else {
        '\0'
    }
}

/// Relies on `char::from_u32` of std: it returns the `char` with code `u`
/// exactly when `u` is a Unicode scalar value (not a surrogate, at most
/// 0x10FFFF), and `None` otherwise.
pub assume_specification[ char::from_u32 ](u: u32) -> (r: Option<char>)
    ensures
        r matches Some(c) ==> c as u32 == u,
        r is Some <==> is_scalar_value(u),
;

/// Decodes a `char` from its code, falling back to nul on an invalid code.
fn decode_char(u: u32) -> (r: char)
    ensures
        r == char_from_code(u),
{
    match char::from_u32(u) {
        Some(c) => {
            proof {
                vstd::utf8::char_u32_cast(c, u);
            }
            c
        },
        None => '\0',
    }
}

/// A pair of characters, each stored as its 32-bit code in little-endian
/// order.
#[derive(Clone, Copy, PartialEq, Eq, Structural, Debug)]
pub struct CharPair {
    pub first: char,
    pub second: char,
}

impl FixedBytes for CharPair {
    open spec fn size_spec() -> nat {
        8
    }

    open spec fn to_bytes_spec(self) -> Seq<u8> {
        vstd::bytes::spec_u32_to_le_bytes(self.first as u32) + vstd::bytes::spec_u32_to_le_bytes(
            self.second as u32,
        )
    }

    open spec fn from_bytes_spec(b: Seq<u8>) -> Self {
        CharPair {
            first: char_from_code(vstd::bytes::spec_u32_from_le_bytes(b.subrange(0, 4))),
            second: char_from_code(vstd::bytes::spec_u32_from_le_bytes(b.subrange(4, 8))),
        }
    }

    open spec fn default_spec() -> Self {
        CharPair { first: '\0', second: '\0' }
    }

    proof fn lemma_size(self) {
        vstd::bytes::lemma_auto_spec_u32_to_from_le_bytes();
    }

    proof fn lemma_round_trip(self) {
        vstd::bytes::lemma_auto_spec_u32_to_from_le_bytes();
        let enc = self.to_bytes_spec();
        assert(enc.subrange(0, 4) =~= vstd::bytes::spec_u32_to_le_bytes(self.first as u32));
        assert(enc.subrange(4, 8) =~= vstd::bytes::spec_u32_to_le_bytes(self.second as u32));
        vstd::utf8::char_is_scalar(self.first);
        vstd::utf8::char_is_scalar(self.second);
        assert(is_scalar_value(self.first as u32));
        assert(is_scalar_value(self.second as u32));
        vstd::utf8::char_u32_cast(self.first, self.first as u32);
        vstd::utf8::char_u32_cast(self.second, self.second as u32);
    }

    fn size() -> (n: usize) {
        8
    }

    fn to_bytes(&self) -> (r: Vec<u8>) {
        let mut r = vstd::bytes::u32_to_le_bytes(self.first as u32);
        let mut s = vstd::bytes::u32_to_le_bytes(self.second as u32);
        r.append(&mut s);
        proof {
            vstd::bytes::lemma_auto_spec_u32_to_from_le_bytes();
            assert(r@ =~= self.to_bytes_spec());
        }
        r
    }

    fn from_bytes(b: &[u8]) -> (r: Self) {
        let first_bytes = slice_range(b, 0, 4);
        let second_bytes = slice_range(b, 4, 8);
        let first_code = vstd::bytes::u32_from_le_bytes(first_bytes.as_slice());
        let second_code = vstd::bytes::u32_from_le_bytes(second_bytes.as_slice());
        CharPair { first: decode_char(first_code), second: decode_char(second_code) }
    }

    fn default_value() -> (r: Self) {
        CharPair { first: '\0', second: '\0' }
    }
}

/// Copies the bytes of `b` from `from` (inclusive) to `to` (exclusive).
fn slice_range(b: &[u8], from: usize, to: usize) -> (r: Vec<u8>)
    requires
        from <= to <= b@.len(),
    ensures
        r@ == b@.subrange(from as int, to as int),
{
    let mut r: Vec<u8> = Vec::new();
    let mut i = from;
    while i < to
        invariant
            from <= i <= to <= b@.len(),
            r@ == b@.subrange(from as int, i as int),
        decreases to - i,
    {
        r.push(b[i]);
        proof {
            assert(r@ =~= b@.subrange(from as int, i + 1 as int));
        }
        i = i + 1;
    }
    r
}

} // verus!
