//! Types and definitions for the IO registers.
//!
//! All io register types are given the names used in GBATEK.

pub mod background;
pub mod color_blend;
pub mod display;
pub mod dma;
pub mod irq;
pub mod sound;
pub mod timers;
pub mod window;
