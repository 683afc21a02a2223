//! Errors of the store.
//!
//! Attach-time failures — the region could not be created or opened, or the
//! lock could not be constructed or reattached — are fatal to the attaching
//! call and carry their cause. A failed lock acquisition surfaces only from a
//! write; a read swallows it and falls back to the stored type's default
//! value instead. Failures of progress output during polling are non-fatal.

use vstd::prelude::*;

verus! {

/// Why a store operation failed.
#[derive(Debug)]
pub enum StoreError {
    /// The named region could not be created or opened (for a reason other
    /// than the name already existing, which is the normal joiner path).
    Region { name: String, cause: String },
    /// The lock could not be constructed in place, or reattached.
    LockConstruction { cause: String },
    /// The lock could not be acquired for a write.
    LockAcquisition { cause: String },
    /// Progress output failed while polling; callers treat this as
    /// non-fatal.
    Io { cause: String },
}

} // verus!
