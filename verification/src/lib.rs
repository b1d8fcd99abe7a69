//! Desktop wallpaper rotation: image-set selection and a rotation
//! scheduler that cycles through a fixed set of images, either in
//! sequence or in a freshly shuffled order each round.

pub mod applier;
pub mod errors;
pub mod images;
pub mod scheduler;

pub use errors::RotationMode;
pub use errors::WallpaperError;
pub use images::FileEntry;
pub use scheduler::RotationState;
