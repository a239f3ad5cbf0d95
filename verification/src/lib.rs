//! Trading-policy inference engine.
//!
//! The library ingests a serialized neural policy graph in size-limited
//! chunks, compiles it into an executable plan, validates caller inputs
//! against a fixed shape contract, executes a forward pass (optionally
//! carrying recurrent state between calls) and decodes the resulting
//! logits into a discrete trading action.
//!
//! Numeric values cross the library boundary as IEEE-754 single-precision
//! bit patterns (`u32`), so that all surrounding bookkeeping, validation
//! and decoding logic is verified; only the graph compilation and the
//! forward pass itself are delegated to the `tract` runtime.

pub mod action;
pub mod bits;
pub mod contract;
pub mod engine;
pub mod errors;
pub mod ledger;
pub mod rt;
pub mod state;
