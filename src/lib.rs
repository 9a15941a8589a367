//! Verified core of a harness that benchmarks concurrent key-value maps.
//!
//! Every backend is used through one capability contract
//! ([`backend::ConcurrentHashMap`]). Read benchmarks draw keys from a
//! finite pool of decimal keys through a shared cursor
//! ([`distributor::MutexIter`]), and the sweep enumerates every
//! (backend, thread count, batch length) cell.

pub mod keys;
pub mod backend;
pub mod dash;
pub mod mutex_map;
pub mod scc_map;
pub mod workload;
pub mod distributor;
pub mod sweep;
pub mod record;
