//! Ingestion logic of a transfer indexer: the block fetcher's pacing rules and
//! the stream processor's decode-and-dispatch rules, as verified functions on
//! plain values.

pub mod backoff;
pub mod text;
pub mod fetcher;
pub mod model;
pub mod checkpoint;
pub mod processor;
pub mod storage;
pub mod schema;
pub mod reply;
pub mod envelope;
pub mod delivery;
