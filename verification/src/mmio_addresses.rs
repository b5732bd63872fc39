//! Addresses of the video memory, by video mode.
pub mod mode3;
