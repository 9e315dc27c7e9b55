//! The ways in which an image operation can be refused.

use vstd::prelude::*;

verus! {

/// Why an image operation was refused.
#[derive(Debug, PartialEq, Eq)]
pub enum ImageError {
    /// A width or height of zero was given where an image is built.
    InvalidDimensions,
    /// A dimension does not fit the pixel engine's signed 32-bit integer,
    /// or a pixel count does not fit a `usize`.
    DimensionOverflow,
    /// Fewer pixels were supplied than the dimensions call for.
    InsufficientPixelData,
    /// The source of a scale operation has zero width or height.
    EmptySource,
    /// The target box of a scale operation has zero width or height.
    EmptyTarget,
    /// The two operands of a blend differ in width or height.
    MismatchedDimensions,
    /// The output path holds a NUL character.
    InvalidPath,
    /// The pixel engine, the codec or the canvas renderer reported a
    /// failure; the text is the message it left behind.
    EngineError(String),
}

impl ImageError {
    /// The text that `message` gives for this error.
    pub open spec fn text(self) -> Seq<char> {
        match self {
            ImageError::InvalidDimensions => "Empty image"@,
            ImageError::DimensionOverflow => "out of range integral type conversion attempted"@,
            ImageError::InsufficientPixelData => "Not enough pixels"@,
            ImageError::EmptySource => "Empty source image"@,
            ImageError::EmptyTarget => "Empty target image"@,
            ImageError::MismatchedDimensions => "Mismatched dimensions"@,
            ImageError::InvalidPath => "nul byte found in provided data"@,
            ImageError::EngineError(message) => message@,
        }
    }

    /// A short description of the error; for a failure of the engine, the
    /// message that the engine left.
    pub fn message(&self) -> (text: String)
        ensures
            text@ == self.text(),
    {
        match self {
            ImageError::InvalidDimensions => "Empty image".to_owned(),
            ImageError::DimensionOverflow => "out of range integral type conversion attempted".to_owned(),
            ImageError::InsufficientPixelData => "Not enough pixels".to_owned(),
            ImageError::EmptySource => "Empty source image".to_owned(),
            ImageError::EmptyTarget => "Empty target image".to_owned(),
            ImageError::MismatchedDimensions => "Mismatched dimensions".to_owned(),
            ImageError::InvalidPath => "nul byte found in provided data".to_owned(),
            ImageError::EngineError(message) => message.clone(),
        }
    }
}

} // verus!
