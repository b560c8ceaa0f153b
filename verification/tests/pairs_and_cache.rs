use img_compare::cache::cache_key;
use img_compare::errors::CompareError;
use img_compare::normalize::NormalizedImage;
use img_compare::pairs::{all_pairs, partners_after};

#[test]
fn no_pairs_for_tiny_inputs() {
    assert_eq!(all_pairs(0).len(), 0);
    assert_eq!(all_pairs(1).len(), 0);
}

#[test]
fn four_inputs_give_exactly_six_pairs() {
    let tasks = all_pairs(4);
    let expected = [(0, 1), (0, 2), (0, 3), (1, 2), (1, 3), (2, 3)];
    assert_eq!(tasks.len(), expected.len());
    for (task, (first, second)) in tasks.iter().zip(expected.iter()) {
        assert_eq!(task.first, *first);
        assert_eq!(task.second, *second);
    }
}

#[test]
fn enumeration_is_complete_and_free_of_duplicates() {
    let n = 7;
    let tasks = all_pairs(n);
    assert_eq!(tasks.len(), n * (n - 1) / 2);
    let mut seen = vec![false; n * n];
    for task in &tasks {
        assert!(task.first < task.second && task.second < n);
        assert!(!seen[task.first * n + task.second], "pair enumerated twice");
        seen[task.first * n + task.second] = true;
    }
    for a in 0..n {
        for b in (a + 1)..n {
            assert!(seen[a * n + b], "pair never enumerated");
        }
    }
}

#[test]
fn partners_follow_the_outer_index() {
    let partners = partners_after(1, 5);
    assert_eq!(partners, vec![2, 3, 4]);
    assert_eq!(partners_after(4, 5), Vec::<usize>::new());
}

#[test]
fn cache_key_is_the_md5_of_the_path() {
    // The MD5 digest of "abc" is well known.
    assert_eq!(cache_key("abc"), "900150983cd24fb0d6963f7d28e17f72.nimg");
    let direct = format!("{:x}", md5::compute("some/photo.png".as_bytes()));
    assert_eq!(cache_key("some/photo.png"), format!("{}.nimg", direct));
}

#[test]
fn cache_keys_differ_for_different_paths() {
    assert_ne!(cache_key("a.png"), cache_key("b.png"));
}

fn sample_grid() -> NormalizedImage {
    let pixels: Vec<u8> = (0..10000u32).map(|i| (i % 251) as u8).collect();
    NormalizedImage {
        pixels,
        aspect_centi: 12_345,
    }
}

#[test]
fn cache_artifacts_round_trip_losslessly() {
    let original = sample_grid();
    let bytes = original.to_cache_bytes();
    let restored = NormalizedImage::from_cache_bytes(&bytes).unwrap();
    assert_eq!(restored.pixels, original.pixels);
    assert_eq!(restored.aspect_centi, original.aspect_centi);
}

#[test]
fn short_artifacts_are_corrupt() {
    assert!(matches!(
        NormalizedImage::from_cache_bytes(&Vec::new()),
        Err(CompareError::CorruptCacheEntry)
    ));
    let mut bytes = sample_grid().to_cache_bytes();
    bytes.pop();
    assert!(matches!(
        NormalizedImage::from_cache_bytes(&bytes),
        Err(CompareError::CorruptCacheEntry)
    ));
}

#[test]
fn wrong_magic_is_corrupt() {
    let mut bytes = sample_grid().to_cache_bytes();
    bytes[0] = 0;
    assert!(matches!(
        NormalizedImage::from_cache_bytes(&bytes),
        Err(CompareError::CorruptCacheEntry)
    ));
}

#[test]
fn a_non_single_channel_artifact_is_refused() {
    let mut bytes = sample_grid().to_cache_bytes();
    bytes[2] = 3;
    assert!(matches!(
        NormalizedImage::from_cache_bytes(&bytes),
        Err(CompareError::NotSingleChannel)
    ));
}
