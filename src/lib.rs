//! Disassembly of Z80 machine code into instruction records.

pub mod insn;
pub mod tables;
pub mod text;
pub mod decode;
pub mod walk;
pub mod hex_input;
pub mod laws;

pub use decode::disass_insn;
pub use hex_input::disass_hex_string;
pub use walk::disass_stream;
pub use insn::{DecodeError, Insn, InsnGroup, InsnView, Opcode};
