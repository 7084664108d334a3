//! A bare-metal RV32I instruction-set simulator.
//!
//! The crate decodes 32-bit instruction words into typed formats, executes
//! their semantics against a 32-register file with exact two's-complement
//! wrapping arithmetic, and routes memory traffic through a byte-addressable
//! bus with switchable endianness and a memory-mapped virtual UART.

pub mod cpu;
pub mod idecoder;
pub mod memory;
pub mod vuart;
