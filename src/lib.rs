//! Fixed binary layout of the telemetry region shared between a producer
//! process and this consumer, with verified offset-based decoding, a
//! byte-range-scoped settings write, and a client over a memory mapping.

pub mod layout;
pub mod types;
pub mod codec;
pub mod laws;
pub mod shm;
pub mod state;
