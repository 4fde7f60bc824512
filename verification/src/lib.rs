//! Coordinator of a mining pool: the share store, the worker registry, the
//! template cache and the validator that credits shares and promotes full
//! blocks, together with a builder for offline transactions.
pub mod address;
pub mod assoc;
pub mod block;
pub mod clock;
pub mod digest;
pub mod error;
pub mod hex_codec;
pub mod laws;
pub mod model;
pub mod pool;
pub mod registry;
pub mod share_store;
pub mod template;
pub mod transaction;
