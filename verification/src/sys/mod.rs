//! Platform back ends: the translation of a plan into each platform's primitives.

pub mod linux;
pub mod windows;
