//! An in-memory bitmap of packed 32-bit pixels.
//!
//! An [`image::Image`] owns its buffer and keeps it in step with its
//! dimensions. It can be built blank or from pixels, cut to a region, and
//! dumped as raw bytes; all of that is done here.
//!
//! Resampling, blending, flattening a canvas and encoding to a file are the
//! work of a pixel engine and its codec, which this crate does not call.
//! For those the image decides what is to be done and what to make of the
//! outcome: it checks the operands, says what the engine has to be asked,
//! and takes the answer as a plain value. See [`scale`], [`compose`] and
//! [`write`].

pub mod compose;
pub mod error;
pub mod fit;
pub mod grid;
pub mod image;
pub mod scale;
pub mod write;
