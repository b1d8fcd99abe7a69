//! The decision side of applying a wallpaper. The OS call itself is the
//! caller's: it hands in which stages succeeded, and this module fixes
//! which outcome — and which error — one application reports.

use vstd::prelude::*;
use crate::errors::WallpaperError;

verus! {

/// The outcome of one wallpaper application. An application passes
/// three stages in order: the path must exist, it must be representable
/// in the encoding the OS requires, and the OS call itself must accept
/// it. The first failing stage decides the error; `os_code` is the code
/// the OS reported when its call failed, and is ignored otherwise.
pub fn apply_outcome(path_exists: bool, representable: bool, os_accepted: bool, os_code: u32) -> (r:
    Result<(), WallpaperError>)
    ensures
        r is Ok <==> path_exists && representable && os_accepted,
        !path_exists ==> r == Err::<(), WallpaperError>(WallpaperError::PathDoesNotExist),
        path_exists && !representable ==> r == Err::<(), WallpaperError>(
            WallpaperError::InvalidPath,
        ),
        path_exists && representable && !os_accepted ==> r == Err::<(), WallpaperError>(
            WallpaperError::OsRejected(os_code),
        ),
{
    if !path_exists {
        Err(WallpaperError::PathDoesNotExist)
    } else if !representable {
        Err(WallpaperError::InvalidPath)
    } else if !os_accepted {
        Err(WallpaperError::OsRejected(os_code))
    } else {
        Ok(())
    }
}

} // verus!
