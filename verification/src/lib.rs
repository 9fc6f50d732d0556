//! A verified two-party escrow engine.
//!
//! One escrow record lives in a caller-owned byte buffer (the storage slot).
//! The first instruction directed at an empty slot initializes the record
//! with the buyer, the seller and the held amount; later instructions record
//! one party's approval. Once both parties have approved, the engine asks its
//! host exactly once to move the held amount to the seller.
//!
//! The engine itself performs no I/O: it maps the slot's bytes and the
//! instruction bytes to the slot's new bytes and an optional transfer
//! request, and the host carries that request out.

pub mod codec;
pub mod engine;
pub mod laws;
pub mod state;
