//! Core of an 8-bit virtual machine: a byte-addressable memory image, a
//! total instruction decoder, and an execution unit that applies each decoded
//! operation to a small register/stack machine, with the pixel buffer and the
//! key state held as plain data that an embedding application drives.

pub mod bus;
pub mod cpu;
pub mod errors;
pub mod graphics;
pub mod input;
pub mod instructions;
pub mod laws;
pub mod memory;
pub mod model;
pub mod sound;
