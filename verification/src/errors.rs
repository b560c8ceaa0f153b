use vstd::prelude::*;

verus! {

/// The per-item failures of the comparison pipeline. All of them are
/// recoverable: the orchestrator reports them and skips the offending item.
#[derive(Clone, Copy, Debug, PartialEq, Eq, Structural)]
pub enum CompareError {
    /// The bytes of a source file could not be decoded as an image.
    DecodeFailed,
    /// A source image decoded to a zero width or height, so it has no
    /// aspect ratio and cannot be normalized.
    EmptyImage,
    /// A cache artifact does not have the expected length or header.
    CorruptCacheEntry,
    /// A cache artifact is well-framed but its pixel format marker does not
    /// say single-channel; the entry is rejected rather than reinterpreted.
    NotSingleChannel,
}

impl CompareError {
    /// A human-readable description, for diagnostic output.
    pub fn describe(&self) -> (result: &'static str)
        ensures
            result@.len() > 0,
    {
        proof {
            reveal_strlit("could not decode the file as an image");
            reveal_strlit("the image has a zero width or height");
            reveal_strlit("the cache artifact is corrupt");
            reveal_strlit("the cache artifact is not a single-channel image");
        }
        match self {
            CompareError::DecodeFailed => "could not decode the file as an image",
            CompareError::EmptyImage => "the image has a zero width or height",
            CompareError::CorruptCacheEntry => "the cache artifact is corrupt",
            CompareError::NotSingleChannel => "the cache artifact is not a single-channel image",
        }
    }
}

} // verus!
