//! The shared data client: a bounded store with least-recently-used eviction,
//! the table of fetches in flight and the table of pagination cursors.

pub mod assoc;
pub mod handles;
pub mod keyed;
pub mod recency;
pub mod slab;
pub mod lru_store;
pub mod data_client;
pub mod provider;
