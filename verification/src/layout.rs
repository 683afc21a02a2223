//! Layout of the shared region.
//!
//! A region is a fixed 4096-byte block: the first machine words hold the
//! initialization flag, the lock's control structure follows immediately, and
//! the rest of the block is the protected value's storage. The size of the
//! lock's control structure is only known at run time (it comes from the lock
//! primitive), so a layout is planned from it and checked to fit.

use vstd::prelude::*;

verus! {

/// Total size of the shared region in bytes.
pub const REGION_SIZE: usize = 4096;

/// Bytes reserved at the start of the region for the initialization flag.
pub const FLAG_RESERVED: usize = 8;

/// Where each part of the region lies, once the lock's control size is known.
pub struct RegionLayout {
    /// Size in bytes of the lock's control structure.
    pub lock_bytes: usize,
    /// Offset of the first byte of the protected value.
    pub value_offset: usize,
    /// Bytes available for the protected value.
    pub value_capacity: usize,
}

impl RegionLayout {
    /// The three parts tile the region: flag words, lock control, value bytes.
    pub open spec fn wf(self) -> bool {
        &&& self.value_offset == FLAG_RESERVED + self.lock_bytes
        &&& self.value_offset + self.value_capacity == REGION_SIZE
    }
}

/// Plans the region layout around a lock control structure of `lock_bytes`
/// bytes. Fails exactly when the flag words and the lock control alone would
/// overrun the region.
pub fn plan_layout(lock_bytes: usize) -> (r: Option<RegionLayout>)
    ensures
        r matches Some(l) ==> l.wf() && l.lock_bytes == lock_bytes,
        r is Some <==> FLAG_RESERVED + lock_bytes <= REGION_SIZE,
{
    if lock_bytes <= REGION_SIZE - FLAG_RESERVED {
        Some(
            RegionLayout {
                lock_bytes,
                value_offset: FLAG_RESERVED + lock_bytes,
                value_capacity: REGION_SIZE - FLAG_RESERVED - lock_bytes,
            },
        )
    } else {
        None
    }
}

/// Whether a value of `size` bytes fits in the protected range of `layout`.
pub fn value_fits(layout: &RegionLayout, size: usize) -> (r: bool)
    ensures
        r == (size <= layout.value_capacity),
{
    size <= layout.value_capacity
}

} // verus!
