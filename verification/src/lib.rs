//! Sampled request-phase metrics and the native side of callback delivery.

pub mod bridge;
pub mod callback;
pub mod metrics;
pub mod response;
pub mod serial;
pub mod text;
