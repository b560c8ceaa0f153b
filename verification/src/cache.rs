use vstd::prelude::*;

use vstd::bytes::lemma_auto_spec_u64_to_from_le_bytes;
use vstd::bytes::spec_u64_from_le_bytes;
use vstd::bytes::spec_u64_to_le_bytes;
use vstd::bytes::u64_from_le_bytes;
use vstd::bytes::u64_to_le_bytes;
use vstd::slice::slice_subrange;
use vstd::string::StringSliceAdditionalSpecFns;

use crate::errors::CompareError;
use crate::normalize::NORMALIZED_LEN;
use crate::normalize::NormalizedImage;

verus! {

/// The file-name extension of a persisted artifact.
pub const ARTIFACT_SUFFIX: &'static str = ".nimg";

/// Marker bytes that open every persisted artifact.
pub const ARTIFACT_MAGIC_0: u8 = 78;

pub const ARTIFACT_MAGIC_1: u8 = 71;

/// The pixel-format marker for a single-channel grid, the only format a
/// valid artifact may carry.
pub const ARTIFACT_FORMAT_SINGLE_CHANNEL: u8 = 1;

/// Total length of an artifact: two magic bytes, the format marker, the
/// aspect ratio as eight little-endian bytes, then the pixel grid.
pub const ARTIFACT_LEN: usize = 10011;

/// What `md5::compute` followed by `Digest`'s `LowerHex` formatting yields
/// for the given bytes: 32 lowercase hexadecimal digits, a function of the
/// bytes alone.
pub uninterp spec fn md5_hex(bytes: Seq<u8>) -> Seq<char>;

/// Relies on `md5::compute` and `Digest`'s `LowerHex` impl: the 128-bit
/// digest of the path's bytes, formatted as two hex digits per digest byte,
/// 32 characters in all, determined by the input bytes alone.
#[verifier::external_body]
fn md5_hex_of(path: &str) -> (result: String)
    ensures
        result@ == md5_hex(path.spec_bytes()),
        result@.len() == 32,
{
    format!("{:x}", md5::compute(path.as_bytes()))
}

/// The deterministic file name a path's normalized grid is cached under: the
/// MD5 hash of the path string in hex, with the artifact suffix. Depends on
/// the path string alone, never on the file's content, so two runs agree on
/// it; distinct paths are taken to collide only negligibly often.
pub fn cache_key(path: &str) -> (result: String)
    ensures
        result@ == md5_hex(path.spec_bytes()) + ARTIFACT_SUFFIX@,
        result@.len() == 32 + ARTIFACT_SUFFIX@.len(),
{
    let mut key = md5_hex_of(path);
    key.append(ARTIFACT_SUFFIX);
    key
}

/// The serialized form of a normalized grid: magic, format marker, aspect
/// ratio, pixels.
pub open spec fn artifact_of(pixels: Seq<u8>, aspect_centi: u64) -> Seq<u8> {
    seq![ARTIFACT_MAGIC_0, ARTIFACT_MAGIC_1, ARTIFACT_FORMAT_SINGLE_CHANNEL]
        + spec_u64_to_le_bytes(aspect_centi) + pixels
}

/// Whether the bytes have an artifact's exact length and magic.
pub open spec fn artifact_framed(bytes: Seq<u8>) -> bool {
    bytes.len() == ARTIFACT_LEN && bytes[0] == ARTIFACT_MAGIC_0 && bytes[1] == ARTIFACT_MAGIC_1
}

/// Whether a framed artifact declares the single-channel pixel format.
pub open spec fn artifact_single_channel(bytes: Seq<u8>) -> bool {
    bytes[2] == ARTIFACT_FORMAT_SINGLE_CHANNEL
}

/// The aspect ratio a framed artifact carries.
pub open spec fn artifact_aspect(bytes: Seq<u8>) -> u64 {
    spec_u64_from_le_bytes(bytes.subrange(3, 11))
}

/// The pixel grid a framed artifact carries.
pub open spec fn artifact_pixels(bytes: Seq<u8>) -> Seq<u8> {
    bytes.subrange(11, ARTIFACT_LEN as int)
}

/// Persistent-cache round trip: parsing a serialized artifact yields back
/// exactly the pixel grid and aspect ratio that were stored, so a cache hit
/// restores what normalization produced on the miss that wrote the entry.
pub proof fn lemma_artifact_round_trip(pixels: Seq<u8>, aspect_centi: u64)
    requires
        pixels.len() == NORMALIZED_LEN,
    ensures
        artifact_framed(artifact_of(pixels, aspect_centi)),
        artifact_single_channel(artifact_of(pixels, aspect_centi)),
        artifact_aspect(artifact_of(pixels, aspect_centi)) == aspect_centi,
        artifact_pixels(artifact_of(pixels, aspect_centi)) == pixels,
{
    lemma_auto_spec_u64_to_from_le_bytes();
    let bytes = artifact_of(pixels, aspect_centi);
    assert(bytes.subrange(3, 11) =~= spec_u64_to_le_bytes(aspect_centi));
    assert(artifact_pixels(bytes) =~= pixels);
}

impl NormalizedImage {
    /// Serializes the grid for the persistent cache's backing store. The
    /// artifact round-trips losslessly: see `lemma_artifact_round_trip` and
    /// `from_cache_bytes`.
    pub fn to_cache_bytes(&self) -> (result: Vec<u8>)
        requires
            self.wf(),
        ensures
            result@ == artifact_of(self.pixels@, self.aspect_centi),
    {
        let mut bytes: Vec<u8> = Vec::new();
        bytes.push(ARTIFACT_MAGIC_0);
        bytes.push(ARTIFACT_MAGIC_1);
        bytes.push(ARTIFACT_FORMAT_SINGLE_CHANNEL);
        let mut aspect_bytes = u64_to_le_bytes(self.aspect_centi);
        bytes.append(&mut aspect_bytes);
        let mut i: usize = 0;
        while i < self.pixels.len()
            invariant
                self.wf(),
                i <= self.pixels.len(),
                bytes@ == seq![
                    ARTIFACT_MAGIC_0,
                    ARTIFACT_MAGIC_1,
                    ARTIFACT_FORMAT_SINGLE_CHANNEL,
                ] + spec_u64_to_le_bytes(self.aspect_centi) + self.pixels@.subrange(0, i as int),
            decreases self.pixels.len() - i,
        {
            bytes.push(self.pixels[i]);
            assert(bytes@ == seq![
                ARTIFACT_MAGIC_0,
                ARTIFACT_MAGIC_1,
                ARTIFACT_FORMAT_SINGLE_CHANNEL,
            ] + spec_u64_to_le_bytes(self.aspect_centi) + self.pixels@.subrange(0, i + 1));
            i = i + 1;
        }
        proof {
            assert(self.pixels@.subrange(0, self.pixels@.len() as int) =~= self.pixels@);
        }
        bytes
    }

    /// Restores a normalized grid from a persisted artifact. Fails with
    /// `CorruptCacheEntry` exactly when the bytes are not a framed artifact,
    /// and with `NotSingleChannel` exactly when they are framed but declare
    /// some other pixel format; that entry is rejected, never reinterpreted.
    pub fn from_cache_bytes(bytes: &Vec<u8>) -> (result: Result<NormalizedImage, CompareError>)
        ensures
            match result {
                Ok(n) => artifact_framed(bytes@) && artifact_single_channel(bytes@) && n.wf()
                    && n.pixels@ == artifact_pixels(bytes@) && n.aspect_centi == artifact_aspect(
                    bytes@,
                ),
                Err(e) => (e == CompareError::CorruptCacheEntry && !artifact_framed(bytes@)) || (e
                    == CompareError::NotSingleChannel && artifact_framed(bytes@)
                    && !artifact_single_channel(bytes@)),
            },
    {
        if bytes.len() != ARTIFACT_LEN {
            return Err(CompareError::CorruptCacheEntry);
        }
        if bytes[0] != ARTIFACT_MAGIC_0 || bytes[1] != ARTIFACT_MAGIC_1 {
            return Err(CompareError::CorruptCacheEntry);
        }
        if bytes[2] != ARTIFACT_FORMAT_SINGLE_CHANNEL {
            return Err(CompareError::NotSingleChannel);
        }
        let aspect_centi = u64_from_le_bytes(slice_subrange(bytes.as_slice(), 3, 11));
        let mut pixels: Vec<u8> = Vec::new();
        let mut i: usize = 11;
        while i < ARTIFACT_LEN
            invariant
                bytes@.len() == ARTIFACT_LEN,
                11 <= i <= ARTIFACT_LEN,
                pixels@ == bytes@.subrange(11, i as int),
            decreases ARTIFACT_LEN - i,
        {
            pixels.push(bytes[i]);
            assert(pixels@ == bytes@.subrange(11, i + 1));
            i = i + 1;
        }
        Ok(NormalizedImage { pixels, aspect_centi })
    }
}

} // verus!
