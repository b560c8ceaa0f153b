use vstd::prelude::*;

pub mod aspect;
pub mod cache;
mod config;
pub mod errors;
pub mod files;
pub mod normalize;
pub mod pairs;
pub mod score;

pub use config::CacheStrategy;

verus! {

/// Scores and thresholds are carried as integers in millionths, so that a
/// similarity of 1.0 is `SCORE_SCALE` and a threshold of 0.9 is 900_000.
pub const SCORE_SCALE: i64 = 1000000;

/// The output serialization the caller asked for; producing the actual text
/// is the formatter's concern, the library only carries the selector.
#[derive(Clone, Copy, Debug, PartialEq, Eq, Structural)]
pub enum OutputFormat {
    Txt,
    Json,
    Csv,
}

/// The caller-facing run parameters, before validation.
pub struct PublicConfig {
    /// Root directory whose images are compared.
    pub path: String,
    /// Similarity threshold in millionths: results are kept only when their
    /// score is strictly greater than this, unless `output_all_scores` is set.
    pub similarity_threshold: i64,
    pub output_format: OutputFormat,
    pub output_all_scores: bool,
}

/// Validated, run-scoped parameters. A value of this type can only come out
/// of [`Config::new`], which has checked the threshold range.
pub struct Config {
    user_config: PublicConfig,
    cache_strategy: CacheStrategy,
}

impl Config {
    pub closed spec fn threshold_spec(&self) -> i64 {
        self.user_config.similarity_threshold
    }

    pub closed spec fn path_spec(&self) -> Seq<char> {
        self.user_config.path@
    }

    pub closed spec fn output_format_spec(&self) -> OutputFormat {
        self.user_config.output_format
    }

    pub closed spec fn output_all_scores_spec(&self) -> bool {
        self.user_config.output_all_scores
    }

    pub closed spec fn cache_strategy_spec(&self) -> CacheStrategy {
        self.cache_strategy
    }

    /// A well-formed configuration carries a threshold inside [0, 1].
    pub open spec fn wf(&self) -> bool {
        0 <= self.threshold_spec() <= SCORE_SCALE
    }

    /// Validates the run parameters; the threshold must lie in [0.0, 1.0]
    /// (here: [0, `SCORE_SCALE`] millionths).
    pub fn new(args: PublicConfig, cache_strategy: CacheStrategy) -> (result: Result<
        Config,
        &'static str,
    >)
        ensures
            result is Ok <==> 0 <= args.similarity_threshold <= SCORE_SCALE,
            result matches Ok(c) ==> c.wf() && c.threshold_spec() == args.similarity_threshold
                && c.path_spec() == args.path@ && c.output_format_spec() == args.output_format
                && c.output_all_scores_spec() == args.output_all_scores
                && c.cache_strategy_spec() == cache_strategy,
    {
        let similarity_threshold = args.similarity_threshold;
        if !(0 <= similarity_threshold && similarity_threshold <= SCORE_SCALE) {
            return Err("Similarity threshold must be between 0.0 and 1.0");
        }
        Ok(
            Config {
                user_config: PublicConfig {
                    path: args.path,
                    similarity_threshold: args.similarity_threshold,
                    output_format: args.output_format,
                    output_all_scores: args.output_all_scores,
                },
                cache_strategy,
            },
        )
    }

    pub fn similarity_threshold(&self) -> (result: i64)
        ensures
            result == self.threshold_spec(),
    {
        self.user_config.similarity_threshold
    }

    pub fn path(&self) -> (result: &String)
        ensures
            result@ == self.path_spec(),
    {
        &self.user_config.path
    }

    pub fn output_format(&self) -> (result: OutputFormat)
        ensures
            result == self.output_format_spec(),
    {
        self.user_config.output_format
    }

    pub fn output_all_scores(&self) -> (result: bool)
        ensures
            result == self.output_all_scores_spec(),
    {
        self.user_config.output_all_scores
    }

    pub fn cache_strategy(&self) -> (result: &CacheStrategy)
        ensures
            result == self.cache_strategy_spec(),
    {
        &self.cache_strategy
    }
}

} // verus!
