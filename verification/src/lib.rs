//! A read-through, expiry-aware cache core.
//!
//! The crate keeps opaque byte content under caller-chosen resource keys and,
//! beside each content entry, an optional expiry record: a single 64-bit
//! timestamp (seconds since the Unix epoch), serialized as 8 big-endian bytes.
//! A read under the default policy honours that record; a missing record means
//! the entry never expires, while a malformed one is treated as already
//! expired, so that doubtful metadata forces a refresh instead of serving
//! stale data.
//!
//! [`cache::CacheManager`] owns the entry namespace and maps each resource key
//! to a content path and a sibling metadata path under a caller-supplied root.
//! [`cache::CacheRequest`] binds one key and one read policy and implements
//! the read-through protocol: return the cached text on a hit, otherwise run a
//! caller-supplied producer once and persist what it returned.
//!
//! Every wall-clock comparison takes the current time as an explicit
//! argument, so callers decide where the clock comes from and every
//! time-dependent contract is stated over that argument.

pub mod cache;
pub mod codec;
pub mod laws;
pub mod store;
pub mod text;
