//! Verified core of a transaction backfill sidecar: classifies blockchain
//! transaction records against a target program identifier, maintains shared
//! progress counters, and renders matched records as single-line JSON.

pub mod base58;
pub mod bytes;
pub mod counters;
pub mod emitter;
pub mod json;
pub mod matcher;
pub mod pipeline;
pub mod record;
