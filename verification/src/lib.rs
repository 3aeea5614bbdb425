//! Client-side service registry: services announce themselves under a key
//! prefix in a coordination store, discover peers, and subscribe to topology
//! changes.  This crate holds the verified core: the data model, key
//! encoding, registration tracking with idempotent-skip, read-side
//! aggregation, and the watch-event translation rules.

pub mod codec;
pub mod digest;
pub mod errors;
pub mod level;
pub mod logger;
pub mod options;
pub mod registry;
pub mod text;
pub mod tracker;
pub mod types;
pub mod watch;
