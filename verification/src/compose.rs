//! Compositing in place: blending another image onto this one, and laying
//! a flat colour behind it.
//!
//! The blend arithmetic is the pixel engine's. The image checks the
//! operands and says what the engine has to be called with; the pixels
//! that the engine then wrote are put back with `replace_pixels`. Both
//! steps take the image exclusively, so that no view of its pixels is
//! alive while they change.

use vstd::prelude::*;
use vstd::slice::slice_to_vec;

use crate::error::ImageError;
use crate::image::{Image, ImageView};

verus! {

/// A call of the engine's blend primitive: `count` pixels of the source
/// are composited onto as many of the destination, tinted by `color` and
/// weighted by `opacity`.
#[derive(Clone, Copy, Debug, PartialEq, Eq)]
pub struct BlendCall {
    pub count: usize,
    pub color: u32,
    pub opacity: u8,
}

/// A call of the engine's background primitive: `color` is laid behind
/// each of `count` pixels.
#[derive(Clone, Copy, Debug, PartialEq, Eq)]
pub struct BackgroundCall {
    pub count: usize,
    pub color: u32,
}

/// What `blend_with` answers: operands of one size give the call over
/// every pixel, others are refused.
pub open spec fn blend_call(
    destination: ImageView,
    source: ImageView,
    color: u32,
    opacity: u8,
) -> Result<BlendCall, ImageError> {
    if destination.width != source.width || destination.height != source.height {
        Err(ImageError::MismatchedDimensions)
    } else {
        Ok(
            BlendCall {
                count: (destination.width * destination.height) as usize,
                color,
                opacity,
            },
        )
    }
}

/// What `replace_pixels` leaves behind: the first `width * height` of the
/// new pixels under the old dimensions, or the image as it was where
/// there are too few.
pub open spec fn with_pixels(image: ImageView, data: Seq<u32>) -> ImageView {
    if data.len() < image.width * image.height {
        image
    } else {
        ImageView {
            width: image.width,
            height: image.height,
            pixels: data.subrange(0, (image.width * image.height) as int),
        }
    }
}

impl Image {
    /// Checks that `source` has the size of this image, and says how the
    /// engine is to blend it on. The check comes before any work of the
    /// engine, which checks nothing itself. Nothing is written here: the
    /// image changes when the engine's pixels are put back.
    pub fn blend_with(&mut self, source: &Image, color: u32, opacity: u8) -> (r: Result<
        BlendCall,
        ImageError,
    >)
        ensures
            r == blend_call(old(self)@, source@, color, opacity),
            final(self)@ == old(self)@,
            old(self)@.wf(),
            source@.wf(),
    {
        let width = self.width();
        let height = self.height();
        if width != source.width() || height != source.height() {
            return Err(ImageError::MismatchedDimensions);
        }
        let count = self.pixels().len();
        Ok(BlendCall { count, color, opacity })
    }

    /// Says how the engine is to lay `color` behind every pixel of this
    /// image. Nothing is written here: the image changes when the engine's
    /// pixels are put back.
    pub fn add_background(&mut self, color: u32) -> (call: BackgroundCall)
        ensures
            call == (BackgroundCall {
                count: (old(self)@.width * old(self)@.height) as usize,
                color,
            }),
            final(self)@ == old(self)@,
            old(self)@.wf(),
    {
        let count = self.pixels().len();
        BackgroundCall { count, color }
    }

    /// Puts new pixel values in place of the old ones. The dimensions
    /// stay; of `pixels` the first `width * height` are taken.
    pub fn replace_pixels(&mut self, pixels: &[u32]) -> (r: Result<(), ImageError>)
        ensures
            final(self)@ == with_pixels(old(self)@, pixels@),
            final(self)@.wf(),
            r is Err <==> pixels@.len() < old(self)@.width * old(self)@.height,
            r is Err ==> r == Err::<(), ImageError>(ImageError::InsufficientPixelData),
    {
        let count = self.pixels().len();
        if pixels.len() < count {
            return Err(ImageError::InsufficientPixelData);
        }
        let fresh = slice_to_vec(&pixels[0..count]);
        self.store(fresh);
        Ok(())
    }
}

} // verus!
