//! Server responses: their size, how they are handed to the virtual machine, and the bytes in which
//! large ones are.

pub mod native_buffer;
pub mod payload;
pub mod push;
pub mod value;
pub mod wire;
