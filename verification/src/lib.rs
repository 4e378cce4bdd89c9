//! The error type of a desktop-notification library: one `Error` for every
//! failure that a backend, a parser or a conversion can raise, and the text
//! that each of them is shown as.

pub mod backend;
pub mod error;
pub mod image;
pub mod laws;
pub mod macos;

pub use error::{bail, ensure, Error, ErrorKind, KindView, Result};
pub use image::ImageError;
pub use macos::MacOsError;
