//! Structural-validation failures of the builders, and the dispatcher's
//! classification failure.

use vstd::prelude::*;

verus! {

/// Why a builder rejected its input. All failures are structural
/// validation over a fully-buffered input; none is retryable.
#[derive(Debug, Clone, Copy, PartialEq, Eq, Structural)]
pub enum GraphicsError {
    /// A pixel buffer's length disagrees with the declared dimensions.
    SizeMismatch,
    /// The texture path needs exactly one sub-image.
    NotSingleSubImage,
    /// A sub-image declares a non-zero frame count where a still
    /// texture is required.
    NonzeroFrameCount,
    /// A sub-image carries per-frame metadata where none is allowed.
    MetadataPresent,
    /// A sub-image lacks per-frame metadata where it is required.
    MetadataMissing,
    /// The first sub-image's declared frame count disagrees with the
    /// number of sub-images available.
    CountMismatch,
    /// A run declares more frames than remain in the sequence (the
    /// input was truncated mid-run), or declares none at all.
    Truncation,
    /// An empty input where at least one element is required.
    Empty,
    /// Fewer than two completed animations where a set is required.
    TooFewAnimations,
    /// Direct-color data supplied where only indexed data is valid.
    NotIndexed,
    /// Input that is not a parsed container where one is required.
    NotContainer,
    /// The generic raster decoder could not decode the bytes.
    ImageDecode,
}

/// All four interpretations rejected the input. Carries the two most
/// informative diagnostics: the per-sub-image validation of the
/// single-animation and single-texture attempts.
#[derive(Debug, Clone, Copy, PartialEq, Eq, Structural)]
pub struct ClassifyError {
    pub animation_error: GraphicsError,
    pub texture_error: GraphicsError,
}

} // verus!
