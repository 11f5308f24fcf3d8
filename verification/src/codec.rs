//! Reading an image file into an adapter and writing a descriptor back to
//! an image file. The codec calls go through trusted wrappers; everything
//! around them — constructing the adapter, validating a descriptor — is
//! verified.
#![allow(unused_imports)]
use vstd::prelude::*;

use crate::ImgError;
use crate::adapter::{RgbImage, TensorDesc, rgb_shape_ok};

verus! {

#[verifier::external_type_specification]
#[verifier::external_body]
pub struct ExDynamicImage(image::DynamicImage);

/// Relies on `image::open`: decodes the file at the path, with the format
/// chosen from the path's extension, and fails — without panicking — if the
/// file cannot be read or its format is unrecognized or corrupt.
#[verifier::external_body]
fn open_image(path: &str) -> (r: Result<image::DynamicImage, ImgError>)
    ensures
        r matches Err(e) ==> e == ImgError::DecodeError,
{
    match image::open(path) {
        Ok(img) => Ok(img),
        Err(_) => Err(ImgError::DecodeError),
    }
}

/// Relies on `DynamicImage::to_rgb8` (and the `ImageBuffer` accessors
/// `height`, `width` and `into_raw`): converts any decoded image to 8-bit
/// RGB — truncating higher bit depths — and its buffer holds exactly
/// height * width * 3 bytes, row-major and channel-interleaved.
#[verifier::external_body]
fn to_rgb8_parts(img: &image::DynamicImage) -> (r: (u32, u32, Vec<u8>))
    ensures
        r.2@.len() == 3 * (r.0 as int) * (r.1 as int),
{
    let rgb = img.to_rgb8();
    let height = rgb.height();
    let width = rgb.width();
    (height, width, rgb.into_raw())
}

/// Relies on `ImageBuffer::from_raw` and `ImageBuffer::save`: encodes the
/// buffer as a height x width RGB image in the format chosen from the
/// path's extension; any failure comes back as an error, never a panic.
#[verifier::external_body]
fn save_rgb8(path: &str, height: u32, width: u32, data: &Vec<u8>) -> (r: Result<(), ImgError>)
    requires
        data@.len() == 3 * (height as int) * (width as int),
    ensures
        r matches Err(e) ==> e == ImgError::EncodeError,
{
    match image::ImageBuffer::<image::Rgb<u8>, &[u8]>::from_raw(width, height, data.as_slice()) {
        Some(img) => match img.save(path) {
            Ok(()) => Ok(()),
            Err(_) => Err(ImgError::EncodeError),
        },
        None => Err(ImgError::EncodeError),
    }
}

/// Decodes the image file at `path` into an RGB adapter. Whatever the
/// source's native bit depth or channel layout, the result is unsigned
/// 8-bit RGB; the only failure is a `DecodeError`, surfaced to the caller
/// rather than aborting.
pub fn read_image(path: &str) -> (r: Result<RgbImage, ImgError>)
    ensures
        r matches Err(e) ==> e == ImgError::DecodeError,
    {
    let decoded = match open_image(path) {
        Ok(img) => img,
        Err(e) => {
            return Err(e);
        },
    };
    let (height, width, data) = to_rgb8_parts(&decoded);
    match RgbImage::new(height, width, data) {
        Ok(img) => Ok(img),
        Err(_) => {
            proof {
                assert(false);
            }
            Err(ImgError::DecodeError)
        },
    }
}

/// Encodes the descriptor's buffer as an RGB image file at `path`. Fails
/// with `ShapeMismatchError` exactly when the shape and buffer length do
/// not describe a dense RGB image; otherwise the buffer is handed to the
/// encoder, and only an encoding or write failure is reported, as an
/// `EncodeError`.
pub fn write_image(path: &str, tensor: TensorDesc) -> (r: Result<(), ImgError>)
    ensures
        r == Err::<(), ImgError>(ImgError::ShapeMismatchError) <==> !rgb_shape_ok(
            tensor.shape@,
            tensor.data@.len() as int,
        ),
        r matches Err(e) ==> e == ImgError::ShapeMismatchError || e == ImgError::EncodeError,
{
    let img = match tensor.into_image() {
        Ok(img) => img,
        Err(e) => {
            return Err(e);
        },
    };
    let height = img.height();
    let width = img.width();
    match save_rgb8(path, height, width, img.data()) {
        Ok(()) => Ok(()),
        Err(e) => Err(e),
    }
}

} // verus!
