//! A verified pixel processing unit for a monochrome 8-bit handheld console.
//!
//! The engine advances a four-phase timing state machine in lock-step with
//! the host clock, owns 8 KiB of video memory that it shields from the host
//! while the renderer holds the bus, and exposes memory-mapped control,
//! status, scroll, palette and scanline registers.

pub mod laws;
pub mod model;
pub mod ppu;

pub use crate::ppu::PPU;
