//! An incremental content pipeline: named raw inputs, derived values that are
//! cached with revision stamps, and the markdown and decoding layers built on them.
//!
//! - `store`: the inputs and the revision counter.
//! - `table`: named, stamped values, the storage behind inputs and caches.
//! - `matter`, `markdown`: the derivations of the content layer.
//! - `database`: the content layer's queries, answered from a cache.
//! - `decode`: stored texts read as structured values, cached as well.
//! - `engine`, `cache`, `context`: registered kinds, queries under way, what
//!   they read, and the cache of the layers that a driver adds.
//! - `laws`: what holds over several steps.
//! - `error`, `sources`: failures and their reports; which files a walk keeps.

pub mod cache;
pub mod context;
pub mod database;
pub mod decode;
pub mod engine;
pub mod error;
pub mod laws;
pub mod markdown;
pub mod matter;
pub mod sources;
pub mod store;
pub mod table;
