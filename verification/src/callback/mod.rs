//! Delivery of completed commands to their callbacks.

pub mod completion;
pub mod coordination;
pub mod finish;
pub mod job;
pub mod process;
