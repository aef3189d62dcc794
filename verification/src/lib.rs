//! A media (audio/image/video) file finder.
//!
//! The library classifies regular files by sniffing their content: a file
//! whose detected MIME type starts with `audio`, `image` or `video` is a
//! media file. The decisions themselves — which traversal entries qualify,
//! how a detection outcome turns into a result — are verified here; the
//! directory traversal, the file reads and the background thread that
//! streams results live in the unverified shell around the library.

pub mod classifier;
pub mod mime;
pub mod walk;
