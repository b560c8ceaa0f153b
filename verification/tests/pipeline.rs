use std::io::Cursor;

use image::{DynamicImage, ImageFormat, RgbImage};
use img_compare::aspect::compare_aspect_ratios;
use img_compare::errors::CompareError;
use img_compare::normalize::{normalize_image_bytes, NormalizedImage};
use img_compare::pairs::all_pairs;
use img_compare::score::{record_result, score_pair, SimilarityResult};
use img_compare::{CacheStrategy, Config, OutputFormat, PublicConfig};

/// Encodes a solid-colour image as PNG bytes, in memory.
fn png_bytes(width: u32, height: u32, rgb: [u8; 3]) -> Vec<u8> {
    let buffer = RgbImage::from_pixel(width, height, image::Rgb(rgb));
    let mut bytes = Cursor::new(Vec::new());
    DynamicImage::ImageRgb8(buffer)
        .write_to(&mut bytes, ImageFormat::Png)
        .unwrap();
    bytes.into_inner()
}

/// The external structural-similarity metric, scaled to millionths.
fn metric_millionths(a: &NormalizedImage, b: &NormalizedImage) -> u32 {
    let grid_a = image::GrayImage::from_raw(100, 100, a.pixels.clone()).unwrap();
    let grid_b = image::GrayImage::from_raw(100, 100, b.pixels.clone()).unwrap();
    let similarity = image_compare::gray_similarity_structure(
        &image_compare::Algorithm::MSSIMSimple,
        &grid_a,
        &grid_b,
    )
    .unwrap();
    (similarity.score.clamp(0.0, 1.0) * 1_000_000.0).round() as u32
}

/// Runs the whole comparison over in-memory file contents, the way the
/// orchestrator does: normalize each input once, enumerate every unordered
/// pair, pre-filter, score, and collect errors without aborting.
fn compare_buffers(
    buffers: &[Vec<u8>],
    config: &Config,
) -> (Vec<SimilarityResult>, Vec<CompareError>) {
    let mut results = Vec::new();
    let mut errors = Vec::new();
    let normalized: Vec<Result<NormalizedImage, CompareError>> =
        buffers.iter().map(normalize_image_bytes).collect();
    for outcome in &normalized {
        if let Err(e) = outcome {
            errors.push(*e);
        }
    }
    for task in all_pairs(buffers.len()) {
        let (Ok(a), Ok(b)) = (&normalized[task.first], &normalized[task.second]) else {
            continue;
        };
        let metric = if compare_aspect_ratios(a, b) {
            metric_millionths(a, b)
        } else {
            0
        };
        let score = score_pair(a, b, metric);
        if let Some(result) = record_result(
            config,
            &format!("image-{}", task.first),
            &format!("image-{}", task.second),
            score,
        ) {
            results.push(result);
        }
    }
    (results, errors)
}

fn config(threshold: i64) -> Config {
    Config::new(
        PublicConfig {
            path: String::new(),
            similarity_threshold: threshold,
            output_format: OutputFormat::Json,
            output_all_scores: false,
        },
        CacheStrategy::InMemory,
    )
    .unwrap()
}

#[test]
fn normalization_yields_a_uniform_grid_for_a_solid_image() {
    let white = normalize_image_bytes(&png_bytes(640, 480, [255, 255, 255])).unwrap();
    assert_eq!(white.pixels.len(), 10000);
    assert!(white.pixels.iter().all(|&p| p == 255));
    // 640/480 = 1.3333... rounds to 1.33.
    assert_eq!(white.aspect_centi, 133);

    let black = normalize_image_bytes(&png_bytes(30, 30, [0, 0, 0])).unwrap();
    assert!(black.pixels.iter().all(|&p| p == 0));
    assert_eq!(black.aspect_centi, 100);
}

#[test]
fn undecodable_bytes_fail_with_a_decode_error() {
    let garbage = vec![1u8, 2, 3, 4, 5, 6, 7, 8];
    assert!(matches!(
        normalize_image_bytes(&garbage),
        Err(CompareError::DecodeFailed)
    ));
}

#[test]
fn scoring_is_symmetric() {
    let a = normalize_image_bytes(&png_bytes(200, 200, [200, 30, 30])).unwrap();
    let b = normalize_image_bytes(&png_bytes(220, 220, [40, 40, 190])).unwrap();
    let forward = metric_millionths(&a, &b);
    let backward = metric_millionths(&b, &a);
    assert_eq!(forward, backward);
    assert_eq!(score_pair(&a, &b, forward), score_pair(&b, &a, backward));
}

#[test]
fn an_identical_copy_scores_the_maximum() {
    let a = normalize_image_bytes(&png_bytes(150, 100, [12, 200, 99])).unwrap();
    let copy = normalize_image_bytes(&png_bytes(150, 100, [12, 200, 99])).unwrap();
    assert!(compare_aspect_ratios(&a, &copy));
    let metric = metric_millionths(&a, &copy);
    assert_eq!(metric, 1_000_000);
    assert_eq!(score_pair(&a, &copy, metric), 1_000_000);
}

#[test]
fn distant_aspect_ratios_never_reach_the_metric() {
    let square = normalize_image_bytes(&png_bytes(100, 100, [255, 0, 0])).unwrap();
    let tall = normalize_image_bytes(&png_bytes(50, 200, [255, 0, 0])).unwrap();
    // The pre-filter rejects the pair, so the orchestration never invokes the
    // metric; the poisoned stand-in below would otherwise clear any threshold.
    assert!(!compare_aspect_ratios(&square, &tall));
    assert_eq!(score_pair(&square, &tall, 1_000_000), 0);
}

#[test]
fn two_red_squares_match_and_the_blue_rectangle_does_not() {
    let buffers = vec![
        png_bytes(100, 100, [255, 0, 0]),
        png_bytes(100, 100, [255, 0, 0]),
        png_bytes(50, 200, [0, 0, 255]),
    ];
    let (results, errors) = compare_buffers(&buffers, &config(900_000));
    assert!(errors.is_empty());
    assert_eq!(results.len(), 1);
    assert_eq!(results[0].file_name_1, "image-0");
    assert_eq!(results[0].file_name_2, "image-1");
    assert!(results[0].similarity_score > 900_000);
}

#[test]
fn a_corrupt_file_is_skipped_and_reported_without_aborting() {
    let buffers = vec![
        png_bytes(100, 100, [255, 0, 0]),
        b"this is not an image".to_vec(),
        png_bytes(100, 100, [255, 0, 0]),
    ];
    let (results, errors) = compare_buffers(&buffers, &config(900_000));
    assert_eq!(errors, vec![CompareError::DecodeFailed]);
    assert_eq!(results.len(), 1);
    assert_eq!(results[0].file_name_1, "image-0");
    assert_eq!(results[0].file_name_2, "image-2");
}

#[test]
fn the_cache_restores_what_normalization_produced() {
    let bytes = png_bytes(320, 240, [90, 120, 240]);
    let fresh = normalize_image_bytes(&bytes).unwrap();
    let artifact = fresh.to_cache_bytes();
    let restored = NormalizedImage::from_cache_bytes(&artifact).unwrap();
    assert_eq!(restored.pixels, fresh.pixels);
    assert_eq!(restored.aspect_centi, fresh.aspect_centi);
}
