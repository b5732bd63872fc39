//! Verified building blocks for programs that run on the Game Boy Advance.
//!
//! The register value types, the fixed-point numbers, the volatile address
//! arithmetic and the decisions of the emulator debug outputs are verified
//! here; reading and writing the hardware is left to the caller.

pub mod bits;
mod bitfrob_calls;
pub mod irq;
pub mod builtins;
pub mod fixed_point;
pub mod fixed;
pub mod display_control;
pub mod interrupts;
pub mod dma;
pub mod keys;
pub mod key_input;
pub mod color;
pub mod mgba;
pub mod core_extras;
pub mod bit_utils;
pub mod debug;
pub mod io;
pub mod io_registers;
pub mod sio;
pub mod bios;
pub mod align4;
pub mod mmio;
pub mod mmio_addresses;
