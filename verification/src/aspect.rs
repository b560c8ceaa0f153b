use vstd::prelude::*;

use crate::normalize::NormalizedImage;

verus! {

/// Aspect ratios are carried in hundredths (centi-units): a 100x100 image has
/// aspect 100, a 50x200 image has aspect 25. This matches a width/height
/// ratio rounded to two decimal places.
pub const ASPECT_RATIO_TOLERANCE_CENTI: u64 = 1;

/// The aspect ratio of a `width` x `height` image in centi-units:
/// `width / height`, scaled by 100 and rounded to the nearest integer
/// (ties round up), computed exactly over the integers.
pub open spec fn aspect_centi_of(width: u32, height: u32) -> int
    recommends
        height >= 1,
{
    (200 * width + height) / (2 * height)
}

/// Two aspect ratios are close when they differ by less than the tolerance
/// (less than 0.01, i.e. less than one centi-unit).
pub open spec fn aspects_close(a: u64, b: u64) -> bool {
    (if a >= b {
        a - b
    } else {
        b - a
    }) < ASPECT_RATIO_TOLERANCE_CENTI
}

/// Computes the aspect ratio of the original (pre-resize) dimensions of an
/// image, in centi-units.
pub fn calculate_aspect_ratio(width: u32, height: u32) -> (result: u64)
    requires
        height >= 1,
    ensures
        result == aspect_centi_of(width, height),
{
    let numerator: u64 = 200u64 * (width as u64) + (height as u64);
    let denominator: u64 = 2u64 * (height as u64);
    numerator / denominator
}

/// The pre-filter: whether two images are shaped alike enough to be worth
/// handing to the expensive similarity metric. Uses the aspect ratios of the
/// images' original dimensions, with a tolerance of one centi-unit (0.01).
pub fn compare_aspect_ratios(image_a: &NormalizedImage, image_b: &NormalizedImage) -> (result:
    bool)
    ensures
        result == aspects_close(image_a.aspect_centi, image_b.aspect_centi),
{
    let aspect_ratio_a = image_a.aspect_centi;
    let aspect_ratio_b = image_b.aspect_centi;
    let difference: u64 = if aspect_ratio_a >= aspect_ratio_b {
        aspect_ratio_a - aspect_ratio_b
    } else {
        aspect_ratio_b - aspect_ratio_a
    };
    difference < ASPECT_RATIO_TOLERANCE_CENTI
}

} // verus!
