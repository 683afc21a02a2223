//! A minimal cross-process shared-memory store.
//!
//! Several processes rendezvous on a named memory region. The first one to
//! create the region (the owner) constructs an inter-process mutex inside it
//! and publishes readiness through an initialization flag at the start of the
//! region; every later process (a joiner) waits for that flag and then
//! reattaches to the same lock bytes. The bytes behind the mutex hold one
//! value of a caller-chosen fixed-size type, read and written through an
//! explicit encode/decode step.
//!
//! This crate holds the verified core: the region layout, the byte codec for
//! stored values, the initialization-flag protocol and the attach state
//! machine, the get/set semantics, and the region-mapper calls into the
//! `shared_memory` crate. The unverifiable glue (raw pointers into the
//! mapping, the `raw_sync` lock itself, the demo loops) lives outside it and
//! only drives these pieces.

pub mod codec;
pub mod errors;
pub mod input;
pub mod layout;
pub mod protocol;
pub mod region;
pub mod store;
