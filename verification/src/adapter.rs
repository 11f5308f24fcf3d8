//! The image-to-tensor adapter: an owned RGB pixel buffer with its
//! descriptor queries, and the validating conversion back from a raw
//! descriptor to a pixel buffer.
#![allow(unused_imports)]
use vstd::prelude::*;

use crate::{Device, Dtype, ImgError};

verus! {

/// The shape a dense RGB descriptor reports: height, then width, then the
/// three channels.
pub open spec fn rgb_shape(height: u32, width: u32) -> Seq<i64> {
    seq![height as i64, width as i64, 3]
}

/// Whether a raw descriptor's shape and buffer length describe a dense
/// row-major RGB image: three dimensions, height and width non-negative and
/// within `u32`, exactly three channels, and a buffer of exactly
/// height * width * 3 bytes.
pub open spec fn rgb_shape_ok(shape: Seq<i64>, nbytes: int) -> bool {
    &&& shape.len() == 3
    &&& 0 <= shape[0] <= u32::MAX
    &&& 0 <= shape[1] <= u32::MAX
    &&& shape[2] == 3
    &&& nbytes == 3 * shape[0] * shape[1]
}

/// The byte count of a dense RGB image stays far below `u128::MAX` for any
/// height and width that fit in `u32`.
proof fn lemma_rgb_len_bound(height: int, width: int)
    requires
        0 <= height <= u32::MAX,
        0 <= width <= u32::MAX,
    ensures
        3 * height * width <= 3 * (u32::MAX as int) * (u32::MAX as int),
        3 * (u32::MAX as int) * (u32::MAX as int) < u128::MAX,
{
    assert(3 * height * width <= 3 * (u32::MAX as int) * (u32::MAX as int))
        by (nonlinear_arith)
        requires
            0 <= height <= u32::MAX,
            0 <= width <= u32::MAX,
    ;
}

/// An owned height x width x 3 pixel buffer, row-major and
/// channel-interleaved (R, G, B), with no padding between rows.
pub struct RgbImage {
    height: u32,
    width: u32,
    data: Vec<u8>,
}

/// A raw tensor descriptor as a consumer hands it back: a shape and the
/// bytes of the buffer it describes. Nothing is assumed of it until it is
/// validated; dtype is fixed to unsigned 8-bit and the layout is taken to
/// be dense row-major, the descriptor contract's default when strides are
/// absent.
pub struct TensorDesc {
    pub shape: Vec<i64>,
    pub data: Vec<u8>,
}

impl RgbImage {
    /// The image's height in pixels.
    pub closed spec fn spec_height(self) -> u32 {
        self.height
    }

    /// The image's width in pixels.
    pub closed spec fn spec_width(self) -> u32 {
        self.width
    }

    /// The pixel bytes, row-major, three bytes per pixel.
    pub closed spec fn bytes(self) -> Seq<u8> {
        self.data@
    }

    #[verifier::type_invariant]
    spec fn inv(self) -> bool {
        self.data@.len() == 3 * (self.height as int) * (self.width as int)
    }

    /// Builds an image from a buffer, rejecting one whose length does not
    /// equal height * width * 3.
    pub fn new(height: u32, width: u32, data: Vec<u8>) -> (r: Result<RgbImage, ImgError>)
        ensures
            r is Ok <==> data@.len() == 3 * (height as int) * (width as int),
            r matches Ok(img) ==> {
                &&& img.spec_height() == height
                &&& img.spec_width() == width
                &&& img.bytes() == data@
            },
            r matches Err(e) ==> e == ImgError::ShapeMismatchError,
    {
        proof {
            lemma_rgb_len_bound(height as int, width as int);
        }
        let expected: u128 = 3u128 * (height as u128) * (width as u128);
        if (data.len() as u128) == expected {
            Ok(RgbImage { height, width, data })
        } else {
            Err(ImgError::ShapeMismatchError)
        }
    }

    /// The height in pixels.
    pub fn height(&self) -> (r: u32)
        ensures
            r == self.spec_height(),
    {
        self.height
    }

    /// The width in pixels.
    pub fn width(&self) -> (r: u32)
        ensures
            r == self.spec_width(),
    {
        self.width
    }

    /// A borrow of the pixel bytes; there are always exactly
    /// height * width * 3 of them.
    pub fn data(&self) -> (r: &Vec<u8>)
        ensures
            r@ == self.bytes(),
            r@.len() == 3 * (self.spec_height() as int) * (self.spec_width() as int),
    {
        proof {
            use_type_invariant(self);
        }
        &self.data
    }

    /// Descriptor query: the shape is always [height, width, 3], and it
    /// always agrees with the length of the buffer the image holds.
    pub fn shape(&self) -> (r: Vec<i64>)
        ensures
            r@ == rgb_shape(self.spec_height(), self.spec_width()),
            r@.len() == 3,
            r@[2] == 3,
            rgb_shape_ok(r@, self.bytes().len() as int),
    {
        proof {
            use_type_invariant(self);
        }
        let v: Vec<i64> = vec![self.height as i64, self.width as i64, 3];
        proof {
            assert(v@ =~= rgb_shape(self.spec_height(), self.spec_width()));
        }
        v
    }

    /// Descriptor query: the buffer always starts at byte offset 0.
    pub fn byte_offset(&self) -> (r: u64)
        ensures
            r == 0,
    {
        0
    }

    /// Descriptor query: the buffer always lives in host memory.
    pub fn device(&self) -> (r: Device)
        ensures
            r == Device::Cpu,
    {
        Device::Cpu
    }

    /// Descriptor query: elements are always unsigned 8-bit integers.
    pub fn dtype(&self) -> (r: Dtype)
        ensures
            r == Dtype::U8,
    {
        Dtype::U8
    }

    /// Descriptor query: strides are never given; consumers must assume the
    /// dense row-major layout.
    pub fn strides(&self) -> (r: Option<Vec<i64>>)
        ensures
            r is None,
    {
        None
    }

    /// Exports the image as a raw descriptor. The exported shape and buffer
    /// always satisfy `rgb_shape_ok`, so the writer accepts them.
    pub fn into_desc(self) -> (t: TensorDesc)
        ensures
            t.shape@ == rgb_shape(self.spec_height(), self.spec_width()),
            t.data@ == self.bytes(),
            rgb_shape_ok(t.shape@, t.data@.len() as int),
    {
        proof {
            use_type_invariant(&self);
        }
        let shape: Vec<i64> = vec![self.height as i64, self.width as i64, 3];
        proof {
            assert(shape@ =~= rgb_shape(self.spec_height(), self.spec_width()));
        }
        TensorDesc { shape, data: self.data }
    }
}

impl TensorDesc {
    /// Validates the descriptor and takes its buffer back as an image:
    /// succeeds exactly when shape and buffer length describe a dense RGB
    /// image, and then recovers height, width and bytes unchanged.
    pub fn into_image(self) -> (r: Result<RgbImage, ImgError>)
        ensures
            r is Ok <==> rgb_shape_ok(self.shape@, self.data@.len() as int),
            r matches Ok(img) ==> {
                &&& img.spec_height() as i64 == self.shape@[0]
                &&& img.spec_width() as i64 == self.shape@[1]
                &&& img.bytes() == self.data@
            },
            r matches Err(e) ==> e == ImgError::ShapeMismatchError,
    {
        if self.shape.len() != 3 {
            return Err(ImgError::ShapeMismatchError);
        }
        let h: i64 = self.shape[0];
        let w: i64 = self.shape[1];
        let c: i64 = self.shape[2];
        if h < 0 || h > u32::MAX as i64 || w < 0 || w > u32::MAX as i64 || c != 3 {
            return Err(ImgError::ShapeMismatchError);
        }
        proof {
            lemma_rgb_len_bound(h as int, w as int);
        }
        let expected: u128 = 3u128 * (h as u128) * (w as u128);
        if (self.data.len() as u128) != expected {
            return Err(ImgError::ShapeMismatchError);
        }
        RgbImage::new(h as u32, w as u32, self.data)
    }
}

/// Round trip at the adapter level: the descriptor exported from any image
/// of height * width * 3 bytes is accepted by the validating conversion,
/// which recovers exactly the same height, width and bytes. Together with
/// the contracts of `into_desc` and `into_image` this says that exporting a
/// descriptor and validating it back is the identity on the pixel buffer.
pub proof fn lemma_desc_round_trip(height: u32, width: u32, bytes: Seq<u8>)
    requires
        bytes.len() == 3 * (height as int) * (width as int),
    ensures
        rgb_shape_ok(rgb_shape(height, width), bytes.len() as int),
        rgb_shape(height, width)[0] == height as i64,
        rgb_shape(height, width)[1] == width as i64,
{
}

} // verus!
