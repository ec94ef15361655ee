//! Why a rendering context could not be had.

use vstd::prelude::*;

verus! {

/// A capability that can be asked for but is not built.
#[derive(Debug, Clone, Copy, PartialEq, Eq, Structural)]
pub enum Feature {
    /// Stereoscopic framebuffers.
    Stereoscopy,
}

/// The request cannot be met on this platform. No other request is tried:
/// the window is not created.
#[derive(Debug, Clone, Copy, PartialEq, Eq, Structural)]
pub enum NegotiationError {
    /// A robust context was demanded and the platform has none.
    RobustnessUnsupported,
    /// The platform has no context of the requested API version.
    VersionUnsupported,
    /// A profile was named and the platform cannot select one.
    ProfileUnsupported,
    /// No framebuffer format meets the requirements.
    NoMatchingFormat,
    /// The request names a feature that is not built.
    UnimplementedFeature(Feature),
}

impl NegotiationError {
    /// The request was for something that is not built, rather than for
    /// something the platform lacks.
    pub open spec fn not_yet_built(self) -> bool {
        self is UnimplementedFeature
    }

    /// Decides [`NegotiationError::not_yet_built`].
    pub fn is_unimplemented(&self) -> (b: bool)
        ensures
            b == self.not_yet_built(),
    {
        match self {
            NegotiationError::UnimplementedFeature(_) => true,
            _ => false,
        }
    }
}

/// The native calls that can fail while a context is made.
#[derive(Debug, Clone, Copy, PartialEq, Eq, Structural)]
pub enum NativeCall {
    /// Getting the drawing surface of the window.
    GetDeviceContext,
    /// Loading the entry points that a driver may or may not have.
    LoadExtraFunctions,
    /// Reading the capability string of the driver.
    ReadExtensions,
    /// Asking which format is bound to the surface.
    GetPixelFormat,
    /// Looking for a format.
    ChoosePixelFormat,
    /// Binding a format to the surface.
    SetPixelFormat,
    /// Reading back what a format is like.
    DescribePixelFormat,
    /// Creating the context.
    CreateContext,
    /// Loading the driver's library.
    LoadLibrary,
    /// Binding the context to the calling thread and setting the swap
    /// interval.
    SwapInterval,
}

/// A native call failed.
#[derive(Debug, Clone, Copy, PartialEq, Eq, Structural)]
pub struct CreationError {
    /// The call that failed.
    pub call: NativeCall,
    /// The platform's last error code, 0 where it reports none.
    pub code: u32,
}

/// Why no context was made.
#[derive(Debug, Clone, Copy, PartialEq, Eq, Structural)]
pub enum ContextError {
    /// The request cannot be met.
    Negotiation(NegotiationError),
    /// The platform failed to do what it was asked.
    Creation(CreationError),
}

} // verus!
