//! Window icons and cursors, neither of which this platform takes from the
//! application.

use vstd::prelude::*;

verus! {

/// Why an icon could not be made.
#[derive(Debug, Clone, Copy, PartialEq, Eq, Structural)]
pub enum IconError {
    /// The platform sets no icon on a window.
    NotSupported,
}

/// The platform's own form of an icon.
#[derive(Debug, Clone, Copy, PartialEq, Eq, Structural)]
pub struct PlatformIcon {}

impl PlatformIcon {
    /// Makes an icon of 32bpp RGBA data, which this platform never does.
    pub fn from_rgba(_rgba: Vec<u8>, _width: u32, _height: u32) -> (icon: Result<
        PlatformIcon,
        IconError,
    >)
        ensures
            icon == Err::<PlatformIcon, IconError>(IconError::NotSupported),
    {
        Err(IconError::NotSupported)
    }
}

/// An icon used for the window titlebar, taskbar, etc.
#[derive(Debug, Clone, Copy, PartialEq, Eq, Structural)]
pub struct Icon {
    pub inner: PlatformIcon,
}

impl Icon {
    /// Creates an `Icon` from 32bpp RGBA data. An icon is made exactly when
    /// the platform makes one of the data.
    pub fn from_rgba(rgba: Vec<u8>, width: u32, height: u32) -> (icon: Result<Icon, IconError>)
        ensures
            icon == Err::<Icon, IconError>(IconError::NotSupported),
    {
        match PlatformIcon::from_rgba(rgba, width, height) {
            Ok(inner) => Ok(Icon { inner }),
            Err(e) => Err(e),
        }
    }
}

/// A cursor of the application's own making. The platform shows its arrow
/// in place of one.
#[derive(Debug, Clone, Copy, PartialEq, Eq, Structural)]
pub struct CustomCursor;

} // verus!
