//! The region mapper.
//!
//! Processes rendezvous on a filesystem-visible link name. The first one to
//! ask for the name creates the fixed-size region and is its owner — its
//! handle controls the backing resource, so it must outlive all joiners.
//! Every later process finds the name taken and opens the existing mapping
//! instead. The mapping itself is the `shared_memory` crate's work; the
//! create-or-open decision and the error taxonomy around it are verified
//! here.

use vstd::prelude::*;

use shared_memory::Shmem;
use shared_memory::ShmemError;

use crate::errors::StoreError;
use crate::layout::REGION_SIZE;
use crate::protocol::role_of;
use crate::protocol::Role;

verus! {

#[verifier::external_type_specification]
#[verifier::external_body]
pub struct ExShmem(Shmem);

#[verifier::external_type_specification]
#[verifier::external_body]
pub struct ExShmemError(ShmemError);

/// Relies on `shared_memory::ShmemConf::create` (with `size` and `flink`
/// set): it attempts exclusive creation of a mapping of `size` bytes behind
/// the link `name`, answering `ShmemError::LinkExists` when the link is
/// already there; what else it answers depends on the machine, so nothing
/// more is promised of the outcome.
#[verifier::external_body]
fn region_create(name: &str, size: usize) -> (r: Result<Shmem, ShmemError>) {
    shared_memory::ShmemConf::new().size(size).flink(name).create()
}

/// Relies on `shared_memory::ShmemConf::open` (with `flink` set): it opens
/// the existing mapping behind the link `name`; the outcome depends on the
/// machine, so nothing is promised of it.
#[verifier::external_body]
fn region_open(name: &str) -> (r: Result<Shmem, ShmemError>) {
    shared_memory::ShmemConf::new().flink(name).open()
}

/// Relies on `shared_memory::Shmem::is_owner`: whether this handle created
/// the mapping (a handle from `create` did, one from `open` did not).
#[verifier::external_body]
fn region_is_owner(region: &Shmem) -> (r: bool) {
    region.is_owner()
}

/// Relies on `shared_memory::ShmemError`'s variants: tells the "link already
/// exists" outcome — the normal joiner path — apart from every fatal one.
#[verifier::external_body]
fn error_is_link_exists(e: &ShmemError) -> (r: bool) {
    matches!(e, ShmemError::LinkExists)
}

/// Relies on `shared_memory::ShmemError`'s `Display` impl for a
/// human-readable cause.
#[verifier::external_body]
fn error_message(e: &ShmemError) -> (r: String) {
    format!("{}", e)
}

/// Opens or creates the region behind the link `name`, at the fixed region
/// size, and reports the caller's role: exclusive creation makes it the
/// owner; a taken name falls back to opening the existing mapping as a
/// joiner. Every other failure of creating or opening is fatal to the attach
/// and carries the region's name and the underlying cause.
pub fn open_or_create(name: &str) -> (r: Result<(Shmem, Role), StoreError>)
    ensures
        r matches Err(e) ==> (e matches StoreError::Region { name: n, cause } && n@ == name@),
{
    match region_create(name, REGION_SIZE) {
        Ok(region) => {
            let owner = region_is_owner(&region);
            Ok((region, role_of(owner)))
        },
        Err(e) => {
            if error_is_link_exists(&e) {
                match region_open(name) {
                    Ok(region) => {
                        let owner = region_is_owner(&region);
                        Ok((region, role_of(owner)))
                    },
                    Err(open_err) => Err(
                        StoreError::Region {
                            name: name.to_owned(),
                            cause: error_message(&open_err),
                        },
                    ),
                }
            } else {
                Err(StoreError::Region { name: name.to_owned(), cause: error_message(&e) })
            }
        },
    }
}

} // verus!
