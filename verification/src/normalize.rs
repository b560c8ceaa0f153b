use vstd::prelude::*;

use crate::aspect::aspect_centi_of;
use crate::aspect::calculate_aspect_ratio;
use crate::errors::CompareError;

verus! {

/// Every image is normalized to this fixed single-channel resolution before
/// it is compared.
pub const NORMALIZED_WIDTH: u32 = 100;

pub const NORMALIZED_HEIGHT: u32 = 100;

/// Number of bytes in a normalized grid: one byte per pixel.
pub const NORMALIZED_LEN: usize = 10000;

/// What `image::load_from_memory` followed by `DynamicImage::to_rgb8` yields
/// for the given encoded bytes: `Some((rgb, width, height))` when the bytes
/// decode, `None` when they do not. Decoding is a function of the bytes alone.
pub uninterp spec fn decoded_rgb(bytes: Seq<u8>) -> Option<(Seq<u8>, u32, u32)>;

/// What resizing a `width` x `height` RGB pixel buffer to the fixed
/// normalization resolution with a nearest-neighbour filter and converting it
/// to single-channel luminance yields; a function of its arguments alone.
pub uninterp spec fn gray_resized(rgb: Seq<u8>, width: u32, height: u32) -> Seq<u8>;

/// Relies on `image::load_from_memory` and `DynamicImage::to_rgb8`: decoding
/// either fails or yields an RGB buffer of exactly `width * height * 3`
/// bytes, determined by the encoded bytes alone.
#[verifier::external_body]
fn decode_rgb(bytes: &Vec<u8>) -> (result: Result<(Vec<u8>, u32, u32), ()>)
    ensures
        match result {
            Ok(t) => decoded_rgb(bytes@) == Some((t.0@, t.1, t.2)) && t.0@.len() == t.1 as int
                * t.2 as int * 3,
            Err(_) => decoded_rgb(bytes@) is None,
        },
{
    match image::load_from_memory(bytes.as_slice()) {
        Ok(img) => {
            let rgb = img.to_rgb8();
            let width = rgb.width();
            let height = rgb.height();
            Ok((rgb.into_raw(), width, height))
        },
        Err(_) => Err(()),
    }
}

/// Relies on `DynamicImage::resize_exact` (with `FilterType::Nearest`) and
/// `DynamicImage::into_luma8`: the result is a function of the pixel data and
/// dimensions alone, and holds one byte for each of the 100 x 100 pixels.
#[verifier::external_body]
fn resize_to_gray(rgb: Vec<u8>, width: u32, height: u32) -> (result: Vec<u8>)
    requires
        width >= 1,
        height >= 1,
        rgb@.len() == width as int * height as int * 3,
    ensures
        result@ == gray_resized(rgb@, width, height),
        result@.len() == NORMALIZED_LEN,
{
    let buffer = image::RgbImage::from_raw(width, height, rgb).unwrap();
    image::DynamicImage::ImageRgb8(buffer)
        .resize_exact(NORMALIZED_WIDTH, NORMALIZED_HEIGHT, image::imageops::FilterType::Nearest)
        .into_luma8()
        .into_raw()
}

/// A decoded image reduced to the comparable form: a fixed-size
/// single-channel pixel grid, plus the aspect ratio of the original
/// (pre-resize) dimensions in centi-units. Never mutated after creation.
pub struct NormalizedImage {
    pub pixels: Vec<u8>,
    pub aspect_centi: u64,
}

impl NormalizedImage {
    /// The grid always holds exactly the fixed normalization resolution.
    pub open spec fn wf(&self) -> bool {
        self.pixels@.len() == NORMALIZED_LEN
    }
}

/// Normalizes a decoded image, given as its raw RGB bytes (3 per pixel, row
/// major) and its original dimensions: resizes it to the fixed resolution
/// with a nearest-neighbour filter, converts it to single-channel luminance,
/// and records the original aspect ratio. Pure: no I/O, deterministic.
pub fn image_to_processed_gray_image(rgb: Vec<u8>, width: u32, height: u32) -> (result:
    NormalizedImage)
    requires
        width >= 1,
        height >= 1,
        rgb@.len() == width as int * height as int * 3,
    ensures
        result.wf(),
        result.pixels@ == gray_resized(rgb@, width, height),
        result.aspect_centi == aspect_centi_of(width, height),
{
    let aspect_centi = calculate_aspect_ratio(width, height);
    let pixels = resize_to_gray(rgb, width, height);
    NormalizedImage { pixels, aspect_centi }
}

/// Decodes the bytes of a source file and normalizes the result: the whole
/// fresh path of the cache providers. Fails exactly when the bytes do not
/// decode, or decode to an image with a zero dimension.
pub fn normalize_image_bytes(bytes: &Vec<u8>) -> (result: Result<NormalizedImage, CompareError>)
    ensures
        match result {
            Ok(n) => match decoded_rgb(bytes@) {
                Some(t) => t.1 >= 1 && t.2 >= 1 && n.wf() && n.pixels@ == gray_resized(
                    t.0,
                    t.1,
                    t.2,
                ) && n.aspect_centi == aspect_centi_of(t.1, t.2),
                None => false,
            },
            Err(e) => match decoded_rgb(bytes@) {
                Some(t) => (t.1 == 0 || t.2 == 0) && e == CompareError::EmptyImage,
                None => e == CompareError::DecodeFailed,
            },
        },
{
    match decode_rgb(bytes) {
        Ok((rgb, width, height)) => {
            if width == 0 || height == 0 {
                Err(CompareError::EmptyImage)
            } else {
                Ok(image_to_processed_gray_image(rgb, width, height))
            }
        },
        Err(_) => Err(CompareError::DecodeFailed),
    }
}

} // verus!
