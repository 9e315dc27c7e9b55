//! Scaling an image into a target box without changing its proportions.
//!
//! Resampling is the pixel engine's work, so scaling takes two steps. The
//! first checks the operands and decides what is to be resampled, and to
//! which size; where source and box agree in size it is already the last.
//! The second takes what the engine made of that request and finishes the
//! image, centred in the full box where that was asked for.

use vstd::prelude::*;

use crate::error::ImageError;
use crate::fit::{fit_target, fit_within, lemma_fit_stays_in_box, same_aspect};
use crate::image::{
    from_pixels,
    lemma_region_at,
    result_view,
    subimage,
    Image,
    ImageView,
    MAX_DIMENSION,
};

verus! {

/// What the pixel engine is asked to resample, and what is to be done with
/// its answer.
#[derive(Clone, Copy, Debug, PartialEq, Eq)]
pub struct ScalePlan {
    /// Width of the source.
    pub width: usize,
    /// Height of the source.
    pub height: usize,
    /// Width to resample to.
    pub target_width: usize,
    /// Height to resample to.
    pub target_height: usize,
    /// Width of the box that was asked for.
    pub box_width: usize,
    /// Height of the box that was asked for.
    pub box_height: usize,
    /// Whether the result is to fill the box, the resampled pixels centred
    /// in it.
    pub expand: bool,
    /// The engine's selector of an interpolation method, handed through
    /// as it was given.
    pub interpolation: i32,
}

impl ScalePlan {
    /// What holds of every plan that scaling hands out: a source and a box
    /// that are not empty and differ in size, and the fitted target for
    /// them, all but the box within the engine's integer.
    pub open spec fn wf(self) -> bool {
        &&& 1 <= self.width <= MAX_DIMENSION
        &&& 1 <= self.height <= MAX_DIMENSION
        &&& 1 <= self.box_width
        &&& 1 <= self.box_height
        &&& !(self.width == self.box_width && self.height == self.box_height)
        &&& (self.target_width as int, self.target_height as int) == fit_target(
            self.width as int,
            self.height as int,
            self.box_width as int,
            self.box_height as int,
        )
        &&& self.target_width <= MAX_DIMENSION
        &&& self.target_height <= MAX_DIMENSION
    }

    /// Whether the resampled pixels are to be set into a larger canvas.
    pub open spec fn embeds(self) -> bool {
        self.expand && (self.target_width != self.box_width || self.target_height
            != self.box_height)
    }
}

/// A pending request to the pixel engine: a plan, and the pixels that the
/// engine is to read. Only scaling makes one, so the plan is always well
/// formed and the pixels are as many as the plan's source has.
#[derive(Debug)]
pub struct ScaleRequest<'a> {
    plan: ScalePlan,
    source: &'a [u32],
}

/// The mathematical content of a [`ScaleRequest`].
pub struct ScaleRequestView {
    pub plan: ScalePlan,
    pub source: Seq<u32>,
}

impl ScaleRequestView {
    /// What holds of every request: a plan that is well formed, and no
    /// fewer pixels than its source has.
    pub open spec fn wf(self) -> bool {
        &&& self.plan.wf()
        &&& self.source.len() >= self.plan.width * self.plan.height
    }
}

impl<'a> View for ScaleRequest<'a> {
    type V = ScaleRequestView;

    closed spec fn view(&self) -> ScaleRequestView {
        ScaleRequestView { plan: self.plan, source: self.source@ }
    }
}

/// How the first step of scaling ended.
#[derive(Debug)]
pub enum Scaling<'a> {
    /// Source and box agree in size: the image is a plain copy.
    Finished(Image),
    /// The engine has to resample; the request says what, and how.
    Resample(ScaleRequest<'a>),
}

/// The mathematical content of a [`Scaling`].
pub enum ScalingView {
    Finished(ImageView),
    Resample(ScaleRequestView),
}

impl<'a> View for Scaling<'a> {
    type V = ScalingView;

    open spec fn view(&self) -> ScalingView {
        match *self {
            Scaling::Finished(image) => ScalingView::Finished(image@),
            Scaling::Resample(request) => ScalingView::Resample(request@),
        }
    }
}

/// The view of a fallible first step.
pub open spec fn scaling_result_view(r: Result<Scaling<'_>, ImageError>) -> Result<
    ScalingView,
    ImageError,
> {
    match r {
        Ok(scaling) => Ok(scaling@),
        Err(e) => Err(e),
    }
}

/// The view of the engine's answer: the resampled pixels, or the message
/// it left on failing.
pub open spec fn reply_view(reply: Result<Vec<u32>, String>) -> Result<Seq<u32>, String> {
    match reply {
        Ok(pixels) => Ok(pixels@),
        Err(message) => Err(message),
    }
}

/// The first step of scaling. Empty operands and missing pixels are
/// refused, in that order; a box of the source's own size gives a copy;
/// otherwise the supplied pixels are to be resampled to the fitted size,
/// which like the source's must fit the engine's integer.
pub open spec fn scale_start(
    width: usize,
    height: usize,
    data: Seq<u32>,
    box_width: usize,
    box_height: usize,
    expand: bool,
    interpolation: i32,
) -> Result<ScalingView, ImageError> {
    if width == 0 || height == 0 {
        Err(ImageError::EmptySource)
    } else if box_width == 0 || box_height == 0 {
        Err(ImageError::EmptyTarget)
    } else if data.len() < width * height {
        Err(ImageError::InsufficientPixelData)
    } else if width == box_width && height == box_height {
        match from_pixels(width as nat, height as nat, data) {
            Ok(copy) => Ok(ScalingView::Finished(copy)),
            Err(e) => Err(e),
        }
    } else {
        let target = fit_target(width as int, height as int, box_width as int, box_height as int);
        if width > MAX_DIMENSION || height > MAX_DIMENSION || target.0 > MAX_DIMENSION || target.1
            > MAX_DIMENSION {
            Err(ImageError::DimensionOverflow)
        } else {
            Ok(
                ScalingView::Resample(
                    ScaleRequestView {
                        plan: ScalePlan {
                            width,
                            height,
                            target_width: target.0 as usize,
                            target_height: target.1 as usize,
                            box_width,
                            box_height,
                            expand,
                            interpolation,
                        },
                        source: data,
                    },
                ),
            )
        }
    }
}

/// The second step of scaling. A failure of the engine is passed on with
/// its message. Otherwise the answer is read as an image of the target
/// size; where the plan asks for it, that image is set into a canvas of
/// the box's size, which must fit the engine's integer, with half of the
/// spare columns to its left and half of the spare rows above it, each
/// half rounded down, and zero around it.
pub open spec fn scale_finish(plan: ScalePlan, reply: Result<Seq<u32>, String>) -> Result<
    ImageView,
    ImageError,
> {
    match reply {
        Err(message) => Err(ImageError::EngineError(message)),
        Ok(data) => match from_pixels(
            plan.target_width as nat,
            plan.target_height as nat,
            data,
        ) {
            Err(e) => Err(e),
            Ok(resampled) => if plan.embeds() {
                subimage(
                    resampled,
                    -((plan.box_width - plan.target_width) / 2),
                    -((plan.box_height - plan.target_height) / 2),
                    plan.box_width as nat,
                    plan.box_height as nat,
                )
            } else {
                Ok(resampled)
            },
        },
    }
}

/// Scaling without expansion gives an image that lies within the box and
/// meets it along at least one axis, and along both where the proportions
/// of source and box agree.
pub proof fn lemma_scaled_fits_box(
    width: usize,
    height: usize,
    data: Seq<u32>,
    box_width: usize,
    box_height: usize,
    interpolation: i32,
    reply: Result<Seq<u32>, String>,
)
    ensures
        match scale_start(width, height, data, box_width, box_height, false, interpolation) {
            Ok(ScalingView::Finished(image)) => image.width == box_width && image.height
                == box_height,
            Ok(ScalingView::Resample(request)) => {
                &&& request.wf()
                &&& scale_finish(request.plan, reply) matches Ok(image) ==> {
                    &&& image.wf()
                    &&& image.width <= box_width
                    &&& image.height <= box_height
                    &&& image.width == box_width || image.height == box_height
                    &&& same_aspect(
                        width as int,
                        height as int,
                        box_width as int,
                        box_height as int,
                    ) ==> image.width == box_width && image.height == box_height
                }
            },
            Err(_) => true,
        },
{
    if width >= 1 && height >= 1 {
        lemma_fit_stays_in_box(width as int, height as int, box_width as int, box_height as int);
    }
}

/// Scaling with expansion gives an image of exactly the box's size,
/// whatever the proportions of the source.
pub proof fn lemma_expanded_fills_box(
    width: usize,
    height: usize,
    data: Seq<u32>,
    box_width: usize,
    box_height: usize,
    interpolation: i32,
    reply: Result<Seq<u32>, String>,
)
    ensures
        match scale_start(width, height, data, box_width, box_height, true, interpolation) {
            Ok(ScalingView::Finished(image)) => image.width == box_width && image.height
                == box_height,
            Ok(ScalingView::Resample(request)) => {
                &&& request.wf()
                &&& scale_finish(request.plan, reply) matches Ok(image) ==> {
                    &&& image.wf()
                    &&& image.width == box_width
                    &&& image.height == box_height
                }
            },
            Err(_) => true,
        },
{
    if width >= 1 && height >= 1 {
        lemma_fit_stays_in_box(width as int, height as int, box_width as int, box_height as int);
    }
}

/// Where an expanded image is wider or taller than what was resampled,
/// the resampled pixels lie centred in it: `left` columns and `above`
/// rows of zero come first, half of what is spare, rounded down, and
/// zero fills what remains.
pub proof fn lemma_expanded_is_centred(
    plan: ScalePlan,
    reply: Result<Seq<u32>, String>,
    column: int,
    row: int,
)
    requires
        plan.wf(),
        plan.embeds(),
        scale_finish(plan, reply) is Ok,
        0 <= column < plan.box_width,
        0 <= row < plan.box_height,
    ensures
        ({
            let left = (plan.box_width - plan.target_width) / 2;
            let above = (plan.box_height - plan.target_height) / 2;
            let resampled = from_pixels(
                plan.target_width as nat,
                plan.target_height as nat,
                reply->Ok_0,
            )->Ok_0;
            let inside = left <= column < left + plan.target_width && above <= row < above
                + plan.target_height;
            scale_finish(plan, reply)->Ok_0.at(column, row) == if inside {
                resampled.at(column - left, row - above)
            } else {
                0u32
            }
        }),
{
    let left = (plan.box_width - plan.target_width) / 2;
    let above = (plan.box_height - plan.target_height) / 2;
    let resampled = from_pixels(
        plan.target_width as nat,
        plan.target_height as nat,
        reply->Ok_0,
    )->Ok_0;
    lemma_region_at(
        resampled,
        -left,
        -above,
        plan.box_width as nat,
        plan.box_height as nat,
        column,
        row,
    );
}

impl<'a> ScaleRequest<'a> {
    #[verifier::type_invariant]
    closed spec fn inv(&self) -> bool {
        self@.wf()
    }

    /// What the engine is to do: resample `width` by `height` pixels to
    /// `target_width` by `target_height`, by the method `interpolation`.
    pub fn plan(&self) -> (plan: ScalePlan)
        ensures
            plan == self@.plan,
            self@.wf(),
    {
        proof {
            use_type_invariant(self);
        }
        self.plan
    }

    /// The pixels that the engine is to read, row by row: the plan's
    /// `width * height` come first.
    pub fn source(&self) -> (source: &'a [u32])
        ensures
            source@ == self@.source,
            self@.wf(),
    {
        proof {
            use_type_invariant(self);
        }
        self.source
    }

    /// Finishes the image from the engine's answer: `Ok` with the
    /// resampled pixels, row by row, or `Err` with the engine's message.
    pub fn finish(self, reply: Result<Vec<u32>, String>) -> (r: Result<Image, ImageError>)
        ensures
            result_view(r) == scale_finish(self@.plan, reply_view(reply)),
            r matches Ok(image) ==> image@.wf(),
    {
        proof {
            use_type_invariant(&self);
        }
        let plan = self.plan;
        proof {
            lemma_fit_stays_in_box(
                plan.width as int,
                plan.height as int,
                plan.box_width as int,
                plan.box_height as int,
            );
        }
        match reply {
            Err(message) => Err(ImageError::EngineError(message)),
            Ok(data) => {
                let resampled = match Image::adopt(plan.target_width, plan.target_height, data) {
                    Ok(image) => image,
                    Err(e) => { return Err(e); },
                };
                if plan.expand && (plan.target_width != plan.box_width || plan.target_height
                    != plan.box_height) {
                    if plan.box_width > MAX_DIMENSION || plan.box_height > MAX_DIMENSION {
                        return Err(ImageError::DimensionOverflow);
                    }
                    let left = (plan.box_width - plan.target_width) / 2;
                    let above = (plan.box_height - plan.target_height) / 2;
                    resampled.subimage(
                        -(left as i32),
                        -(above as i32),
                        plan.box_width,
                        plan.box_height,
                    )
                } else {
                    Ok(resampled)
                }
            },
        }
    }
}

impl Image {
    /// The first step of scaling `width` by `height` pixels into a box of
    /// `scale_width` by `scale_height`: a finished copy where the sizes
    /// agree, else the request that the pixel engine has to serve.
    pub fn new_from_pixels_scaled<'a>(
        width: usize,
        height: usize,
        pixels: &'a [u32],
        scale_width: usize,
        scale_height: usize,
        expand: bool,
        interpolation: i32,
    ) -> (r: Result<Scaling<'a>, ImageError>)
        ensures
            scaling_result_view(r) == scale_start(
                width,
                height,
                pixels@,
                scale_width,
                scale_height,
                expand,
                interpolation,
            ),
            r matches Ok(Scaling::Finished(image)) ==> image@.wf(),
            r matches Ok(Scaling::Resample(request)) ==> request@.wf(),
    {
        let target = match fit_within(width, height, scale_width, scale_height) {
            Ok(target) => target,
            Err(e) => { return Err(e); },
        };
        proof {
            lemma_fit_stays_in_box(
                width as int,
                height as int,
                scale_width as int,
                scale_height as int,
            );
        }
        let supplied = pixels.len();
        match width.checked_mul(height) {
            Some(count) => {
                if supplied < count {
                    return Err(ImageError::InsufficientPixelData);
                }
            },
            None => { return Err(ImageError::InsufficientPixelData); },
        }
        if width == scale_width && height == scale_height {
            return match Image::new_from_pixels(width, height, pixels) {
                Ok(copy) => Ok(Scaling::Finished(copy)),
                Err(e) => Err(e),
            };
        }
        if width > MAX_DIMENSION || height > MAX_DIMENSION || target.0 > MAX_DIMENSION || target.1
            > MAX_DIMENSION {
            return Err(ImageError::DimensionOverflow);
        }
        let plan = ScalePlan {
            width,
            height,
            target_width: target.0,
            target_height: target.1,
            box_width: scale_width,
            box_height: scale_height,
            expand,
            interpolation,
        };
        Ok(Scaling::Resample(ScaleRequest { plan, source: pixels }))
    }

    /// The first step of scaling this image into a box of `scale_width` by
    /// `scale_height`; it reads the image as it is now.
    pub fn scaled(
        &self,
        scale_width: usize,
        scale_height: usize,
        expand: bool,
        interpolation: i32,
    ) -> (r: Result<Scaling<'_>, ImageError>)
        ensures
            scaling_result_view(r) == scale_start(
                self@.width as usize,
                self@.height as usize,
                self@.pixels,
                scale_width,
                scale_height,
                expand,
                interpolation,
            ),
            self@.wf(),
            r matches Ok(Scaling::Finished(image)) ==> image@.wf(),
            r matches Ok(Scaling::Resample(request)) ==> request@.wf(),
    {
        Image::new_from_pixels_scaled(
            self.width(),
            self.height(),
            self.pixels(),
            scale_width,
            scale_height,
            expand,
            interpolation,
        )
    }
}

} // verus!
