//! An untyped pointer value: one machine address, with wrapping address
//! arithmetic, alignment masking and a fixed-width hexadecimal rendering.
#![allow(non_camel_case_types)]

pub mod pointer;
pub mod render;
pub mod laws;

pub use pointer::ptr;
