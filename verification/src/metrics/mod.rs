//! Sampling, phase accounting and the bounded sample buffer.

pub mod allow_list;
pub mod byte_order;
pub mod clock;
pub mod context;
pub mod counters;
pub mod errors;
pub mod global;
pub mod laws;
pub mod ledger;
pub mod operation;
pub mod phase;
pub mod sample;
pub mod state;
