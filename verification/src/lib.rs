//! Bridges an image codec and a dense-tensor descriptor exchange: an image
//! file decodes into an owned RGB pixel buffer exposed through descriptor
//! queries (shape, dtype, device, byte offset, strides), and a descriptor
//! with a matching buffer encodes back to an image file.
#![allow(unused_imports)]
use vstd::prelude::*;

pub mod adapter;
pub mod codec;
pub mod decimal;

verus! {

/// The error taxonomy of the conversions: a source file that cannot be read
/// or decoded, a descriptor whose buffer length does not match its shape,
/// and a destination that cannot be encoded or written.
#[derive(Debug, Clone, Copy, PartialEq, Eq, Structural)]
pub enum ImgError {
    DecodeError,
    ShapeMismatchError,
    EncodeError,
}

/// The device a descriptor's buffer lives on; only host memory is supported.
#[derive(Debug, Clone, Copy, PartialEq, Eq, Structural)]
pub enum Device {
    Cpu,
}

/// The element type of a descriptor's buffer; pixels are always unsigned
/// 8-bit, whatever the source file's native bit depth.
#[derive(Debug, Clone, Copy, PartialEq, Eq, Structural)]
pub enum Dtype {
    U8,
}

} // verus!
