//! Writing an image to a file in one of the codec's container formats.
//!
//! Opening the file, encoding and closing are the codec's work. A
//! [`WriteJob`] holds what has been decided and says which of the three is
//! next; the caller carries that step out and reports how it went. However
//! the steps go, a sink that was opened is closed before the job ends.

use vstd::prelude::*;
use vstd::std_specs::iter::IteratorSpec;

use crate::error::ImageError;
use crate::image::{Image, ImageView};

verus! {

/// A container format of the codec.
#[derive(Clone, Copy, Debug, PartialEq, Eq)]
pub enum ImageFormat {
    Png,
    Jpeg,
    Qoi,
    Webp,
}

/// What the caller of a [`WriteJob`] has to do next.
#[derive(Clone, Copy, Debug, PartialEq, Eq)]
pub enum WriteStep {
    /// Open a file sink at the job's path.
    OpenSink,
    /// Encode the job's image in the job's format into the open sink.
    Encode,
    /// Release the sink.
    CloseSink,
    /// Nothing: the job has ended.
    Done,
}

/// How far a write has come.
#[derive(Debug, PartialEq, Eq)]
pub enum WriteStage {
    /// No sink has been opened yet.
    Opening,
    /// A sink is open and nothing has been encoded into it.
    Encoding,
    /// Encoding has ended as the field says; the sink is still open.
    Closing(Result<(), ImageError>),
    /// The write has ended as the field says; no sink is open.
    Finished(Result<(), ImageError>),
}

/// Whether a sink is open in this stage.
pub open spec fn holds_sink(stage: WriteStage) -> bool {
    stage is Encoding || stage is Closing
}

/// The step that a stage calls for.
pub open spec fn step_of(stage: WriteStage) -> WriteStep {
    match stage {
        WriteStage::Opening => WriteStep::OpenSink,
        WriteStage::Encoding => WriteStep::Encode,
        WriteStage::Closing(_) => WriteStep::CloseSink,
        WriteStage::Finished(_) => WriteStep::Done,
    }
}

/// The stage that follows once the step of `stage` has been carried out
/// and the codec has answered with `reply`: `Ok`, or `Err` with the
/// message it left on failing. A failure to open ends the write; a failure
/// to encode is kept until the sink is closed; how closing went changes
/// nothing.
pub open spec fn stage_after(stage: WriteStage, reply: Result<(), String>) -> WriteStage {
    match stage {
        WriteStage::Opening => match reply {
            Ok(_) => WriteStage::Encoding,
            Err(message) => WriteStage::Finished(Err(ImageError::EngineError(message))),
        },
        WriteStage::Encoding => match reply {
            Ok(_) => WriteStage::Closing(Ok(())),
            Err(message) => WriteStage::Closing(Err(ImageError::EngineError(message))),
        },
        WriteStage::Closing(outcome) => WriteStage::Finished(outcome),
        WriteStage::Finished(outcome) => WriteStage::Finished(outcome),
    }
}

/// The stage reached from `stage` after the replies in `replies`, one per
/// step carried out.
pub open spec fn stage_after_all(stage: WriteStage, replies: Seq<Result<(), String>>) -> WriteStage
    decreases replies.len(),
{
    if replies.len() == 0 {
        stage
    } else {
        stage_after(stage_after_all(stage, replies.drop_last()), replies.last())
    }
}

/// How many sinks were opened on the way from `stage` through `replies`:
/// one for each success in opening.
pub open spec fn sinks_opened(stage: WriteStage, replies: Seq<Result<(), String>>) -> nat
    decreases replies.len(),
{
    if replies.len() == 0 {
        0
    } else {
        let before = stage_after_all(stage, replies.drop_last());
        sinks_opened(stage, replies.drop_last()) + if before is Opening && replies.last() is Ok {
            1nat
        } else {
            0nat
        }
    }
}

/// How many sinks were closed on the way from `stage` through `replies`:
/// one for each closing step carried out.
pub open spec fn sinks_closed(stage: WriteStage, replies: Seq<Result<(), String>>) -> nat
    decreases replies.len(),
{
    if replies.len() == 0 {
        0
    } else {
        let before = stage_after_all(stage, replies.drop_last());
        sinks_closed(stage, replies.drop_last()) + if before is Closing {
            1nat
        } else {
            0nat
        }
    }
}

/// Whatever the codec answers, a write that starts with no sink open has
/// opened exactly one sink more than it has closed while it holds one,
/// and as many as it has closed otherwise; so when it has ended, every
/// sink that was opened has been closed.
pub proof fn lemma_sinks_balance(replies: Seq<Result<(), String>>)
    ensures
        sinks_opened(WriteStage::Opening, replies) == sinks_closed(WriteStage::Opening, replies)
            + if holds_sink(stage_after_all(WriteStage::Opening, replies)) {
            1nat
        } else {
            0nat
        },
        stage_after_all(WriteStage::Opening, replies) is Finished ==> sinks_opened(
            WriteStage::Opening,
            replies,
        ) == sinks_closed(WriteStage::Opening, replies),
        sinks_opened(WriteStage::Opening, replies) <= 1,
    decreases replies.len(),
{
    if replies.len() > 0 {
        lemma_sinks_balance(replies.drop_last());
    }
}

/// A write ends after at most three steps, and it ends well exactly when
/// the sink could be opened and the image could be encoded; otherwise it
/// ends with the message of the step that failed.
pub proof fn lemma_write_ends(replies: Seq<Result<(), String>>)
    requires
        replies.len() >= 3,
    ensures
        stage_after_all(WriteStage::Opening, replies) == WriteStage::Finished(
            match replies[0] {
                Err(message) => Err(ImageError::EngineError(message)),
                Ok(_) => match replies[1] {
                    Err(message) => Err(ImageError::EngineError(message)),
                    Ok(_) => Ok(()),
                },
            },
        ),
    decreases replies.len(),
{
    let start = WriteStage::Opening;
    if replies.len() == 3 {
        let one = replies.drop_last().drop_last();
        let two = replies.drop_last();
        assert(one.drop_last().len() == 0);
        assert(stage_after_all(start, one.drop_last()) == start);
        assert(one.last() == replies[0]);
        assert(two.drop_last() == one);
        assert(two.last() == replies[1]);
        assert(stage_after_all(start, one) == stage_after(start, replies[0]));
        assert(stage_after_all(start, two) == stage_after(
            stage_after_all(start, one),
            replies[1],
        ));
    } else {
        lemma_write_ends(replies.drop_last());
        assert(replies.drop_last()[0] == replies[0]);
        assert(replies.drop_last()[1] == replies[1]);
    }
}

/// A write in progress.
#[derive(Debug)]
pub struct WriteJob<'a> {
    image: &'a Image,
    format: ImageFormat,
    path: String,
    stage: WriteStage,
}

/// The mathematical content of a [`WriteJob`].
pub struct WriteJobView {
    pub image: ImageView,
    pub format: ImageFormat,
    pub path: Seq<char>,
    pub stage: WriteStage,
}

impl<'a> View for WriteJob<'a> {
    type V = WriteJobView;

    closed spec fn view(&self) -> WriteJobView {
        WriteJobView {
            image: self.image@,
            format: self.format,
            path: self.path@,
            stage: self.stage,
        }
    }
}

/// What starting a write answers: a path that holds a NUL character is
/// refused, any other gives a job that has yet to open its sink.
pub open spec fn write_start(image: ImageView, format: ImageFormat, path: Seq<char>) -> Result<
    WriteJobView,
    ImageError,
> {
    if path.contains('\0') {
        Err(ImageError::InvalidPath)
    } else {
        Ok(WriteJobView { image, format, path, stage: WriteStage::Opening })
    }
}

/// The view of a fallible start of a write.
pub open spec fn job_result_view(r: Result<WriteJob<'_>, ImageError>) -> Result<
    WriteJobView,
    ImageError,
> {
    match r {
        Ok(job) => Ok(job@),
        Err(e) => Err(e),
    }
}

/// Whether `path` holds a NUL character.
fn holds_nul(path: &str) -> (b: bool)
    ensures
        b == path@.contains('\0'),
{
    for c in it: path.chars()
        invariant
            it.seq() == path@,
            forall|i: int| 0 <= i < it.index() ==> path@[i] != '\0',
    {
        if c == '\0' {
            return true;
        }
    }
    false
}

impl<'a> WriteJob<'a> {
    #[verifier::type_invariant]
    closed spec fn inv(&self) -> bool {
        !self.path@.contains('\0')
    }

    /// Starts a write of `image` in `format` to the file at `path`.
    pub fn start(image: &'a Image, format: ImageFormat, path: &str) -> (r: Result<
        WriteJob<'a>,
        ImageError,
    >)
        ensures
            job_result_view(r) == write_start(image@, format, path@),
    {
        if holds_nul(path) {
            return Err(ImageError::InvalidPath);
        }
        Ok(WriteJob { image, format, path: path.to_owned(), stage: WriteStage::Opening })
    }

    /// The image to encode.
    pub fn image(&self) -> (image: &'a Image)
        ensures
            image@ == self@.image,
    {
        self.image
    }

    /// The format to encode in.
    pub fn format(&self) -> (format: ImageFormat)
        ensures
            format == self@.format,
    {
        self.format
    }

    /// The path of the file to write; it holds no NUL character.
    pub fn path(&self) -> (path: &str)
        ensures
            path@ == self@.path,
            !path@.contains('\0'),
    {
        proof {
            use_type_invariant(self);
        }
        self.path.as_str()
    }

    /// What is to be done next.
    pub fn next(&self) -> (step: WriteStep)
        ensures
            step == step_of(self@.stage),
    {
        match self.stage {
            WriteStage::Opening => WriteStep::OpenSink,
            WriteStage::Encoding => WriteStep::Encode,
            WriteStage::Closing(_) => WriteStep::CloseSink,
            WriteStage::Finished(_) => WriteStep::Done,
        }
    }

    /// Takes the codec's answer to the step that was due: `Ok`, or `Err`
    /// with the message it left on failing. Image, format and path stay.
    pub fn advance(self, reply: Result<(), String>) -> (job: WriteJob<'a>)
        ensures
            job@ == (WriteJobView { stage: stage_after(self@.stage, reply), ..self@ }),
    {
        proof {
            use_type_invariant(&self);
        }
        let WriteJob { image, format, path, stage } = self;
        let stage = match stage {
            WriteStage::Opening => match reply {
                Ok(_) => WriteStage::Encoding,
                Err(message) => WriteStage::Finished(Err(ImageError::EngineError(message))),
            },
            WriteStage::Encoding => match reply {
                Ok(_) => WriteStage::Closing(Ok(())),
                Err(message) => WriteStage::Closing(Err(ImageError::EngineError(message))),
            },
            WriteStage::Closing(outcome) => WriteStage::Finished(outcome),
            WriteStage::Finished(outcome) => WriteStage::Finished(outcome),
        };
        WriteJob { image, format, path, stage }
    }

    /// How the write ended, once it has.
    pub fn outcome(self) -> (r: Option<Result<(), ImageError>>)
        ensures
            r == match self@.stage {
                WriteStage::Finished(outcome) => Some(outcome),
                _ => None,
            },
    {
        match self.stage {
            WriteStage::Finished(outcome) => Some(outcome),
            _ => None,
        }
    }
}

impl Image {
    /// Starts a write of this image as PNG to the file at `path`.
    pub fn write_png(&self, path: &str) -> (r: Result<WriteJob<'_>, ImageError>)
        ensures
            job_result_view(r) == write_start(self@, ImageFormat::Png, path@),
    {
        WriteJob::start(self, ImageFormat::Png, path)
    }

    /// Starts a write of this image as JPEG to the file at `path`.
    pub fn write_jpeg(&self, path: &str) -> (r: Result<WriteJob<'_>, ImageError>)
        ensures
            job_result_view(r) == write_start(self@, ImageFormat::Jpeg, path@),
    {
        WriteJob::start(self, ImageFormat::Jpeg, path)
    }

    /// Starts a write of this image as QOI to the file at `path`.
    pub fn write_qoi(&self, path: &str) -> (r: Result<WriteJob<'_>, ImageError>)
        ensures
            job_result_view(r) == write_start(self@, ImageFormat::Qoi, path@),
    {
        WriteJob::start(self, ImageFormat::Qoi, path)
    }

    /// Starts a write of this image as WebP to the file at `path`.
    pub fn write_webp(&self, path: &str) -> (r: Result<WriteJob<'_>, ImageError>)
        ensures
            job_result_view(r) == write_start(self@, ImageFormat::Webp, path@),
    {
        WriteJob::start(self, ImageFormat::Webp, path)
    }
}

} // verus!
