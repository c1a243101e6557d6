//! Annotation of video and still-image files with timed ranges and crops,
//! and the transcoder invocations that export them.
//!
//! Times are whole microseconds, frame rates are frames per thousand seconds,
//! and normalized media coordinates are fixed-point with `NORM_ONE` for 1.0.
pub mod export;
pub mod geometry;
pub mod media;
pub mod playback;
pub mod session;
pub mod text;
