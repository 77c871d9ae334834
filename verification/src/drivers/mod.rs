//! Hardware device drivers.

pub mod vga;
