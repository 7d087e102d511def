//! Transfer layer of a host-side USB stack: completion results, a per-transfer
//! state machine, an ordered multi-transfer queue, reusable buffers and the
//! control setup-packet codec.

pub mod transfer;

pub use transfer::{Completion, EndpointType, TransferError, TransferFuture};
