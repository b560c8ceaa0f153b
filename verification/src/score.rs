use vstd::prelude::*;

use crate::Config;
use crate::aspect::aspects_close;
use crate::aspect::compare_aspect_ratios;
use crate::normalize::NormalizedImage;

verus! {

/// A scored pair of images, produced for the output. The score is in
/// millionths of the metric's [0, 1] range.
pub struct SimilarityResult {
    pub file_name_1: String,
    pub file_name_2: String,
    pub similarity_score: u32,
}

/// The score of a pair: 0 when the shape pre-filter rejects it, otherwise
/// exactly the external metric's value for the two grids.
pub open spec fn score_of(a: NormalizedImage, b: NormalizedImage, metric_score: u32) -> u32 {
    if aspects_close(a.aspect_centi, b.aspect_centi) {
        metric_score
    } else {
        0
    }
}

/// Applies the shape pre-filter to a pair. `metric_score` is the external
/// structural-similarity metric's value for the two grids, in millionths;
/// when the pre-filter rejects the pair the caller need not have run the
/// metric at all, and the argument is ignored. Stateless, mutates nothing.
pub fn score_pair(a: &NormalizedImage, b: &NormalizedImage, metric_score: u32) -> (result: u32)
    ensures
        result == score_of(*a, *b, metric_score),
{
    if compare_aspect_ratios(a, b) {
        metric_score
    } else {
        0
    }
}

/// Scoring is symmetric in the two images: the library hands the metric the
/// same pair either way and filters on the same shape difference.
pub proof fn lemma_score_symmetric(a: NormalizedImage, b: NormalizedImage, metric_score: u32)
    ensures
        score_of(a, b, metric_score) == score_of(b, a, metric_score),
{
}

/// A pair whose aspect ratios differ by the tolerance or more scores exactly
/// 0 whatever the metric would have said, so the metric need never run.
pub proof fn lemma_prefilter_scores_zero(
    a: NormalizedImage,
    b: NormalizedImage,
    metric_one: u32,
    metric_two: u32,
)
    requires
        !aspects_close(a.aspect_centi, b.aspect_centi),
    ensures
        score_of(a, b, metric_one) == 0,
        score_of(a, b, metric_one) == score_of(b, a, metric_two),
{
}

/// An image paired with an identical copy always passes the pre-filter, and
/// its score is exactly whatever the metric says of the identical grids.
pub proof fn lemma_identical_reaches_metric(a: NormalizedImage, metric_score: u32)
    ensures
        score_of(a, a, metric_score) == metric_score,
{
}

/// Whether a scored pair belongs in the output: only when its score strictly
/// exceeds the threshold, unless the run asked for all scores.
pub open spec fn included_in_output(config: Config, score: u32) -> bool {
    score > config.threshold_spec() || config.output_all_scores_spec()
}

/// Collects one scored pair: returns the result triple exactly when the
/// score strictly exceeds the configured threshold (or the run asked for all
/// scores), and nothing otherwise.
pub fn record_result(config: &Config, file_name_1: &str, file_name_2: &str, score: u32) -> (result:
    Option<SimilarityResult>)
    ensures
        result is Some <==> included_in_output(*config, score),
        result matches Some(r) ==> r.file_name_1@ == file_name_1@ && r.file_name_2@
            == file_name_2@ && r.similarity_score == score,
{
    if (score as i64) > config.similarity_threshold() || config.output_all_scores() {
        Some(
            SimilarityResult {
                file_name_1: file_name_1.to_owned(),
                file_name_2: file_name_2.to_owned(),
                similarity_score: score,
            },
        )
    } else {
        None
    }
}

/// The threshold boundary is strict: a pair scoring exactly the threshold is
/// not included (when the run did not ask for all scores), and a pair
/// scoring any more is.
pub proof fn lemma_threshold_boundary(config: Config, at_threshold: u32, above: u32)
    requires
        !config.output_all_scores_spec(),
        at_threshold == config.threshold_spec(),
        above > config.threshold_spec(),
    ensures
        !included_in_output(config, at_threshold),
        included_in_output(config, above),
{
}

} // verus!
