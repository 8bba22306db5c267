//! A freshness-and-revalidation engine for values kept in a key-value store.
//!
//! Given what a store holds for a key, the current time and the caller's
//! options, the engine decides whether to serve the stored value, to serve it
//! stale while it is refreshed in the background, or to produce a fresh value
//! and store it. The engine performs no input or output: it is called with
//! what the store and the producer answered, and returns what to do next. See
//! [`engine`] for the steps and [`laws`] for what holds of every decision.

pub mod engine;
pub mod error;
pub mod keyspace;
pub mod laws;
pub mod metadata;
pub mod options;
pub mod time;
pub mod validation;

pub use error::CachifiedError;
pub use metadata::CacheEntry;
pub use metadata::CacheMetadata;
pub use options::CachifiedOptions;
pub use options::CachifiedOptionsBuilder;
pub use options::SoftPurgeOptions;
pub use validation::CheckValue;
