//! A ledger of sensor attestations: signed single readings, Merkle-committed
//! batches, and the per-device registration that counts them.

pub mod merkle;
pub mod message;
pub mod registry;
