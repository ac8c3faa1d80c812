//! A simulator for a small fixed-word register machine: 64-bit words that
//! decode into address, index, modifier and operation code, a register file,
//! a comparison flag and one hundred words of memory.

pub mod codec;
pub mod model;
pub mod machine;
pub mod laws;
