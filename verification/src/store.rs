//! Reading and writing the protected value.
//!
//! Whoever holds the region's lock may view the protected bytes. A read
//! decodes them into the stored type — and, when the lock cannot be acquired,
//! does not fail: it falls back to the type's default value. A write encodes
//! the value over the protected bytes and propagates a lock failure as an
//! error. This asymmetry — silent fallback on read, hard error on write — is
//! deliberate and part of the observable contract.
//!
//! The byte-level model here also shows what the lock buys: writes that are
//! serialized by it replace the whole value range each, so the bytes left
//! behind are exactly one of the written encodings, never a byte-wise mix.

use vstd::prelude::*;

use crate::codec::FixedBytes;
use crate::errors::StoreError;
use crate::layout::RegionLayout;
use crate::layout::REGION_SIZE;

verus! {

/// How long a writer holds the lock after writing, in seconds (a
/// demonstration of contention, not a correctness need).
pub const SET_HOLD_SECS: u64 = 1;

/// The read core: decodes the protected bytes a held lock exposed, or falls
/// back to the default value when the lock was not acquired. A failed
/// acquisition is not an error here — by design, unlike a write.
pub fn read_outcome<T: FixedBytes>(guarded: Option<&[u8]>) -> (r: T)
    requires
        guarded matches Some(b) ==> b@.len() == T::size_spec(),
    ensures
        guarded matches Some(b) ==> r == T::from_bytes_spec(b@),
        guarded is None ==> r == T::default_spec(),
{
    match guarded {
        Some(b) => T::from_bytes(b),
        None => T::default_value(),
    }
}

/// The write core: encodes the value to store, or propagates a failed lock
/// acquisition as [`StoreError::LockAcquisition`] with its cause.
pub fn write_request<T: FixedBytes>(value: T, lock_failure: Option<String>) -> (r: Result<
    Vec<u8>,
    StoreError,
>)
    ensures
        lock_failure is None ==> (r matches Ok(b) && b@ == value.to_bytes_spec()),
        lock_failure matches Some(c) ==> (r matches Err(e)
            && e matches StoreError::LockAcquisition { cause } && cause@ == c@),
{
    match lock_failure {
        None => Ok(value.to_bytes()),
        Some(cause) => Err(StoreError::LockAcquisition { cause }),
    }
}

/// `region` with `data` written over the bytes starting at `off`.
pub open spec fn splice(region: Seq<u8>, off: int, data: Seq<u8>) -> Seq<u8> {
    region.take(off) + data + region.skip(off + data.len())
}

/// Copies the protected bytes `[off, off + len)` out of a region image.
pub fn read_value_bytes(region: &Vec<u8>, off: usize, len: usize) -> (r: Vec<u8>)
    requires
        off + len <= region@.len(),
    ensures
        r@ == region@.subrange(off as int, off + len),
{
    let n: usize = region.len();
    let mut r: Vec<u8> = Vec::new();
    let mut i: usize = 0;
    while i < len
        invariant
            n == region@.len(),
            off + len <= region@.len(),
            i <= len,
            r@ == region@.subrange(off as int, off + i),
        decreases len - i,
    {
        r.push(region[off + i]);
        proof {
            assert(r@ =~= region@.subrange(off as int, off + i + 1));
        }
        i = i + 1;
    }
    r
}

/// Writes `data` over the bytes of a region image starting at `off`.
pub fn write_value_bytes(region: &mut Vec<u8>, off: usize, data: &[u8])
    requires
        off + data@.len() <= old(region)@.len(),
    ensures
        final(region)@ == splice(old(region)@, off as int, data@),
{
    let n: usize = region.len();
    let mut i: usize = 0;
    while i < data.len()
        invariant
            n == old(region)@.len(),
            region@.len() == old(region)@.len(),
            off + data@.len() <= old(region)@.len(),
            i <= data@.len(),
            region@ == splice(old(region)@, off as int, data@.subrange(0, i as int)),
        decreases data@.len() - i,
    {
        region[off + i] = data[i];
        proof {
            assert(region@ =~= splice(old(region)@, off as int, data@.subrange(0, i + 1)));
        }
        i = i + 1;
    }
    proof {
        assert(data@.subrange(0, data@.len() as int) =~= data@);
    }
}

/// The full read path against a region image: under the lock (`acquired`),
/// the protected bytes decode to the result; without it, the default value
/// comes back and no error is raised.
pub fn get_from_region<T: FixedBytes>(region: &Vec<u8>, layout: &RegionLayout, acquired: bool) -> (r:
    T)
    requires
        region@.len() == REGION_SIZE,
        layout.wf(),
        T::size_spec() <= layout.value_capacity,
    ensures
        acquired ==> r == T::from_bytes_spec(
            region@.subrange(
                layout.value_offset as int,
                layout.value_offset + T::size_spec(),
            ),
        ),
        !acquired ==> r == T::default_spec(),
{
    if acquired {
        let bytes = read_value_bytes(region, layout.value_offset, T::size());
        read_outcome::<T>(Some(bytes.as_slice()))
    } else {
        read_outcome::<T>(None)
    }
}

/// The full write path against a region image: under the lock the encoding of
/// `value` replaces the protected bytes; a failed acquisition leaves the
/// region untouched and is propagated as an error.
pub fn set_in_region<T: FixedBytes>(
    region: &mut Vec<u8>,
    layout: &RegionLayout,
    value: T,
    lock_failure: Option<String>,
) -> (r: Result<(), StoreError>)
    requires
        old(region)@.len() == REGION_SIZE,
        layout.wf(),
        T::size_spec() <= layout.value_capacity,
    ensures
        lock_failure is None ==> r is Ok && final(region)@ == splice(
            old(region)@,
            layout.value_offset as int,
            value.to_bytes_spec(),
        ),
        lock_failure matches Some(c) ==> (r matches Err(e)
            && e matches StoreError::LockAcquisition { cause } && cause@ == c@
            && final(region)@ == old(region)@),
{
    match write_request::<T>(value, lock_failure) {
        Ok(data) => {
            proof {
                value.lemma_size();
            }
            write_value_bytes(region, layout.value_offset, data.as_slice());
            Ok(())
        },
        Err(e) => Err(e),
    }
}

/// The bytes a region image holds after a sequence of serialized writes, each
/// replacing the whole value range at `off`.
pub open spec fn bytes_after_writes(init: Seq<u8>, writes: Seq<Seq<u8>>, off: int) -> Seq<u8>
    decreases writes.len(),
{
    if writes.len() == 0 {
        init
    } else {
        splice(bytes_after_writes(init, writes.drop_last(), off), off, writes.last())
    }
}

/// Serialized writes keep the region's length.
pub proof fn lemma_writes_keep_len(init: Seq<u8>, writes: Seq<Seq<u8>>, off: int, len: int)
    requires
        forall|i: int| 0 <= i < writes.len() ==> #[trigger] writes[i].len() == len,
        0 <= off,
        off + len <= init.len(),
    ensures
        bytes_after_writes(init, writes, off).len() == init.len(),
    decreases writes.len(),
{
    if writes.len() > 0 {
        lemma_writes_keep_len(init, writes.drop_last(), off, len);
    }
}

/// Mutual exclusion at the byte level: writes that the lock serialized each
/// replace the whole value range, so the range afterwards holds the last
/// write entire — one of the written encodings, never a byte-wise mix of
/// several.
pub proof fn lemma_serialized_writes_no_mix(init: Seq<u8>, writes: Seq<Seq<u8>>, off: int, len: int)
    requires
        writes.len() > 0,
        forall|i: int| 0 <= i < writes.len() ==> #[trigger] writes[i].len() == len,
        0 <= off,
        off + len <= init.len(),
    ensures
        bytes_after_writes(init, writes, off).subrange(off, off + len) == writes.last(),
        exists|i: int|
            0 <= i < writes.len() && bytes_after_writes(init, writes, off).subrange(off, off + len)
                == writes[i],
{
    lemma_writes_keep_len(init, writes.drop_last(), off, len);
    assert(bytes_after_writes(init, writes, off).subrange(off, off + len) =~= writes.last());
    assert(bytes_after_writes(init, writes, off).subrange(off, off + len) == writes[
        writes.len() - 1
    ]);
}

/// Round trip through a region image: writing a value's encoding and decoding
/// the same range gives the value back, bit for bit.
pub proof fn lemma_set_then_get<T: FixedBytes>(region: Seq<u8>, off: int, v: T)
    requires
        0 <= off,
        off + T::size_spec() <= region.len(),
    ensures
        T::from_bytes_spec(
            splice(region, off, v.to_bytes_spec()).subrange(off, off + T::size_spec()),
        ) == v,
{
    v.lemma_size();
    v.lemma_round_trip();
    assert(splice(region, off, v.to_bytes_spec()).subrange(off, off + T::size_spec())
        =~= v.to_bytes_spec());
}

} // verus!
