//! What the native side decides about its calls into the virtual machine.

pub mod caches;
pub mod calls;
pub mod clients;
pub mod exceptions;
pub mod methods;
pub mod workers;
