use dlparkimg::adapter::{RgbImage, TensorDesc};
use dlparkimg::decimal::{sum_as_string, u64_to_decimal};
use dlparkimg::{Device, Dtype, ImgError};

fn solid_red(height: u32, width: u32) -> Vec<u8> {
    let mut data = Vec::new();
    for _ in 0..(height * width) {
        data.push(255u8);
        data.push(0u8);
        data.push(0u8);
    }
    data
}

#[test]
fn new_accepts_matching_buffer() {
    let img = RgbImage::new(2, 3, solid_red(2, 3)).unwrap();
    assert_eq!(img.height(), 2);
    assert_eq!(img.width(), 3);
    assert_eq!(img.data().len(), 18);
}

#[test]
fn new_rejects_mismatched_buffer() {
    let r = RgbImage::new(2, 3, vec![0u8; 17]);
    assert!(matches!(r, Err(ImgError::ShapeMismatchError)));
}

#[test]
fn descriptor_queries() {
    let img = RgbImage::new(2, 3, solid_red(2, 3)).unwrap();
    assert_eq!(img.shape(), vec![2i64, 3i64, 3i64]);
    assert_eq!(img.dtype(), Dtype::U8);
    assert_eq!(img.device(), Device::Cpu);
    assert_eq!(img.byte_offset(), 0u64);
    assert!(img.strides().is_none());
}

#[test]
fn shape_always_three_dims_with_three_channels() {
    let img = RgbImage::new(7, 1, vec![9u8; 21]).unwrap();
    let shape = img.shape();
    assert_eq!(shape.len(), 3);
    assert_eq!(shape[2], 3);
}

#[test]
fn desc_round_trip_is_identity() {
    let bytes = solid_red(2, 3);
    let img = RgbImage::new(2, 3, bytes.clone()).unwrap();
    let desc = img.into_desc();
    assert_eq!(desc.shape, vec![2i64, 3i64, 3i64]);
    assert_eq!(desc.data, bytes);
    let back = desc.into_image().unwrap();
    assert_eq!(back.height(), 2);
    assert_eq!(back.width(), 3);
    assert_eq!(back.data(), &bytes);
}

#[test]
fn into_image_rejects_wrong_rank() {
    let t = TensorDesc { shape: vec![2, 3], data: vec![0u8; 18] };
    assert!(matches!(t.into_image(), Err(ImgError::ShapeMismatchError)));
}

#[test]
fn into_image_rejects_wrong_channel_count() {
    let t = TensorDesc { shape: vec![2, 3, 4], data: vec![0u8; 24] };
    assert!(matches!(t.into_image(), Err(ImgError::ShapeMismatchError)));
}

#[test]
fn into_image_rejects_negative_dimension() {
    let t = TensorDesc { shape: vec![-2, 3, 3], data: vec![0u8; 18] };
    assert!(matches!(t.into_image(), Err(ImgError::ShapeMismatchError)));
}

#[test]
fn into_image_rejects_short_buffer() {
    let t = TensorDesc { shape: vec![2, 3, 3], data: vec![0u8; 17] };
    assert!(matches!(t.into_image(), Err(ImgError::ShapeMismatchError)));
}

#[test]
fn into_image_accepts_empty_image() {
    let t = TensorDesc { shape: vec![0, 5, 3], data: Vec::new() };
    let img = t.into_image().unwrap();
    assert_eq!(img.height(), 0);
    assert_eq!(img.width(), 5);
    assert_eq!(img.data().len(), 0);
}

#[test]
fn sum_as_string_small() {
    assert_eq!(sum_as_string(2, 3), "5");
}

#[test]
fn sum_as_string_carries() {
    assert_eq!(sum_as_string(123, 456), "579");
}

#[test]
fn sum_as_string_zero() {
    assert_eq!(sum_as_string(0, 0), "0");
}

#[test]
fn u64_to_decimal_exact() {
    assert_eq!(u64_to_decimal(0), "0");
    assert_eq!(u64_to_decimal(10), "10");
    assert_eq!(u64_to_decimal(90210), "90210");
    assert_eq!(u64_to_decimal(u64::MAX), "18446744073709551615");
}
