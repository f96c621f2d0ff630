//! Client-side cache for package metadata served by an npm-style registry.
//!
//! The crate is organized around a per-name state machine
//! ([`registry::NpmRegistryApiInner`]) that decides, for every lookup,
//! whether to answer from the in-memory cache, join an in-flight fetch,
//! consult the on-disk cache, or start a network fetch.  The surrounding
//! process performs the actual I/O and reports each outcome back as an
//! event; every decision the machine makes is verified against the
//! contracts stated here.

pub mod errors;
pub mod laws;
pub mod metadata;
pub mod registry;
pub mod setting;
pub mod sync_queue;
pub mod urls;
