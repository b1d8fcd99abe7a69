//! The rotation policies and the error kinds of the library.

use vstd::prelude::*;

verus! {

/// The two ordering policies for wallpaper rotation: `Sequential`
/// cycles through the image set in a fixed, wrapping order; `Random`
/// reshuffles the whole set before every application.
#[derive(Clone, Copy, Debug, PartialEq, Eq, Structural)]
pub enum RotationMode {
    Random,
    Sequential,
}

/// Everything that can go wrong when listing images or applying a
/// wallpaper.
#[derive(Clone, Copy, Debug, PartialEq, Eq, Structural)]
pub enum WallpaperError {
    /// The supplied path does not exist at the time of use.
    PathDoesNotExist,
    /// Rotation was requested but the supplied path is not a directory.
    NotADirectory,
    /// The directory holds no file with a supported image extension.
    NoImagesFound,
    /// The path cannot be represented in the encoding the OS requires.
    InvalidPath,
    /// The OS wallpaper facility itself reported failure, with its code.
    OsRejected(u32),
}

impl WallpaperError {
    /// A human-readable description of the error. For `OsRejected` the
    /// caller appends the code itself when printing.
    pub fn message(&self) -> (r: &'static str)
        ensures
            *self is PathDoesNotExist ==> r@ == "path does not exist"@,
            *self is NotADirectory ==> r@ == "the provided path is not a directory"@,
            *self is NoImagesFound ==> r@ == "no image files found in the directory"@,
            *self is InvalidPath ==> r@ == "the path cannot be converted for the OS"@,
            *self is OsRejected ==> r@ == "the OS rejected the wallpaper change"@,
    {
        match self {
            WallpaperError::PathDoesNotExist => "path does not exist",
            WallpaperError::NotADirectory => "the provided path is not a directory",
            WallpaperError::NoImagesFound => "no image files found in the directory",
            WallpaperError::InvalidPath => "the path cannot be converted for the OS",
            WallpaperError::OsRejected(_) => "the OS rejected the wallpaper change",
        }
    }
}

} // verus!
