//! A tiered-memory page placement controller: a builder for perf event
//! descriptors, a consumer of the perf sample ring, a per-page access
//! tracker and the migration policy that keeps the two memory tiers in ratio.
pub mod abi;
pub mod attr;
pub mod builder;
pub mod bytes;
pub mod error;
pub mod handle;
pub mod policy;
pub mod ring;
pub mod sample;
pub mod tracker;
