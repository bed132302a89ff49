//! Typed, bit-accurate views of the PCI configuration-space Status and
//! Command registers, with a builder for new Command register values.

pub mod bits;
pub mod command;
pub mod devsel;
pub mod render;
pub mod status;

pub use command::{CommandRegister, CommandRegisterBuilder};
pub use devsel::DevselTiming;
pub use status::StatusRegister;
