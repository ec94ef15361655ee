//! The request and the result of rendering-context negotiation.

use vstd::prelude::*;

verus! {

/// All APIs related to OpenGL that a context can be created for.
#[derive(Debug, Clone, Copy, PartialEq, Eq, Structural)]
pub enum Api {
    /// The classical OpenGL. Available on Windows, Unix operating systems,
    /// OS/X.
    OpenGl,
    /// OpenGL embedded system. Available on Unix operating systems, Android.
    OpenGlEs,
    /// OpenGL for the web. Very similar to OpenGL ES.
    WebGl,
}

/// Describes the requested OpenGL context profiles.
#[derive(Debug, Clone, Copy, PartialEq, Eq, Structural)]
pub enum GlProfile {
    /// Include all the immediate more functions and definitions.
    Compatibility,
    /// Include all the future-compatible functions and definitions.
    Core,
}

/// Describes the OpenGL API and version that are being requested when a context
/// is created.
#[derive(Debug, Copy, Clone)]
pub enum GlRequest {
    /// Request the latest version of the "best" API of this platform.
    ///
    /// On desktop, will try OpenGL.
    Latest,
    /// Request a specific version of a specific API.
    ///
    /// Example: `GlRequest::Specific(Api::OpenGl, (3, 3))`.
    Specific(Api, (u8, u8)),
    /// If OpenGL is available, create an OpenGL context with the specified
    /// `opengl_version`. Else if OpenGL ES or WebGL is available, create a
    /// context with the specified `opengles_version`.
    GlThenGles {
        /// The version to use for OpenGL.
        opengl_version: (u8, u8),
        /// The version to use for OpenGL ES.
        opengles_version: (u8, u8),
    },
}

impl GlRequest {
    /// The desktop GL version that this request names, if it names one.
    pub open spec fn gl_version(self) -> Option<(u8, u8)> {
        match self {
            GlRequest::Specific(Api::OpenGl, version) => Some(version),
            GlRequest::GlThenGles { opengl_version, .. } => Some(opengl_version),
            _ => None,
        }
    }

    /// The version that this request names, of whichever API: none for the
    /// latest; the OpenGL one where the request names two.
    pub open spec fn version_asked(self) -> Option<(u8, u8)> {
        match self {
            GlRequest::Latest => None,
            GlRequest::Specific(_, version) => Some(version),
            GlRequest::GlThenGles { opengl_version, .. } => Some(opengl_version),
        }
    }

    /// Computes [`GlRequest::version_asked`].
    pub fn requested_version(&self) -> (version: Option<(u8, u8)>)
        ensures
            version == self.version_asked(),
    {
        match self {
            GlRequest::Latest => None,
            GlRequest::Specific(_, version) => Some(*version),
            GlRequest::GlThenGles { opengl_version, .. } => Some(*opengl_version),
        }
    }

    /// Extract the desktop GL version, if any.
    pub fn to_gl_version(&self) -> (version: Option<(u8, u8)>)
        ensures
            version == self.gl_version(),
    {
        match self {
            GlRequest::Specific(Api::OpenGl, opengl_version) => Some(*opengl_version),
            GlRequest::GlThenGles { opengl_version, .. } => Some(*opengl_version),
            _ => None,
        }
    }
}

/// The minimum core profile GL context. Useful for getting the minimum
/// required GL version while still running on OSX, which often forbids
/// the compatibility profile features.
pub fn gl_core() -> (request: GlRequest)
    ensures
        request == GlRequest::Specific(Api::OpenGl, (3u8, 2u8)),
{
    GlRequest::Specific(Api::OpenGl, (3, 2))
}

/// Specifies the tolerance of the OpenGL context to faults. If you accept
/// raw OpenGL commands and/or raw shader code from an untrusted source, you
/// should definitely care about this.
#[derive(Debug, Copy, Clone, PartialEq, Eq, Structural)]
pub enum Robustness {
    /// Not everything is checked. Your application can crash if you do
    /// something wrong with your shaders.
    NotRobust,
    /// The driver doesn't check anything. This option is very dangerous.
    /// Please know what you're doing before using it. See the
    /// `GL_KHR_no_error` extension.
    ///
    /// Since this option is purely an optimization, no error will be returned
    /// if the backend doesn't support it. Instead it will automatically
    /// fall back to `NotRobust`.
    NoError,
    /// Everything is checked to avoid any crash. The driver will attempt to
    /// avoid any problem, but if a problem occurs the behavior is
    /// implementation-defined. You are just guaranteed not to get a crash.
    RobustNoResetNotification,
    /// Same as `RobustNoResetNotification` but the context creation doesn't
    /// fail if it's not supported.
    TryRobustNoResetNotification,
    /// Everything is checked to avoid any crash. If a problem occurs, the
    /// context will enter a "context lost" state. It must then be
    /// recreated.
    RobustLoseContextOnReset,
    /// Same as `RobustLoseContextOnReset` but the context creation doesn't
    /// fail if it's not supported.
    TryRobustLoseContextOnReset,
}

impl Robustness {
    /// Whether the caller depends on the robust behaviour, so that a platform
    /// that cannot provide it must refuse the context.
    pub open spec fn is_mandatory(self) -> bool {
        self == Robustness::RobustNoResetNotification || self
            == Robustness::RobustLoseContextOnReset
    }

    /// Decides [`Robustness::is_mandatory`].
    pub fn mandatory(&self) -> (b: bool)
        ensures
            b == self.is_mandatory(),
    {
        match self {
            Robustness::RobustNoResetNotification | Robustness::RobustLoseContextOnReset => true,
            _ => false,
        }
    }
}

/// The behavior of the driver when you change the current context.
#[derive(Debug, Copy, Clone, PartialEq, Eq, Structural)]
pub enum ReleaseBehavior {
    /// Doesn't do anything. Most notably doesn't flush.
    NoFlush,
    /// Flushes the context that was previously current as if `glFlush` was
    /// called.
    Flush,
}

/// Describes a possible format.
#[derive(Debug, Clone, Copy, PartialEq, Eq, Structural)]
pub struct PixelFormat {
    pub hardware_accelerated: bool,
    /// The number of color bits. Does not include alpha bits.
    pub color_bits: u8,
    pub alpha_bits: u8,
    pub depth_bits: u8,
    pub stencil_bits: u8,
    pub stereoscopy: bool,
    pub double_buffer: bool,
    /// `None` if multisampling is disabled, otherwise `Some(N)` where `N` is
    /// the multisampling level.
    pub multisampling: Option<u16>,
    pub srgb: bool,
}

/// Describes how the framebuffer of a new context must look.
#[derive(Debug, Clone, Copy, PartialEq, Eq, Structural)]
pub struct PixelFormatRequirements {
    /// If true, only hardware-accelerated formats will be considered. If
    /// false, only software renderers. `None` means "don't care". Default
    /// is `Some(true)`.
    pub hardware_accelerated: Option<bool>,
    /// Minimum number of bits for the color buffer, excluding alpha. `None`
    /// means "don't care". The default is `Some(24)`.
    pub color_bits: Option<u8>,
    /// If true, the color buffer must be in a floating point format. Default
    /// is `false`.
    pub float_color_buffer: bool,
    /// Minimum number of bits for the alpha in the color buffer. `None` means
    /// "don't care". The default is `Some(8)`.
    pub alpha_bits: Option<u8>,
    /// Minimum number of bits for the depth buffer. `None` means "don't care".
    /// The default value is `Some(24)`.
    pub depth_bits: Option<u8>,
    /// Minimum number of stencil bits. `None` means "don't care".
    /// The default value is `Some(8)`.
    pub stencil_bits: Option<u8>,
    /// If true, only double-buffered formats will be considered. If false,
    /// only single-buffer formats. `None` means "don't care". The default
    /// is `Some(true)`.
    pub double_buffer: Option<bool>,
    /// Contains the minimum number of samples per pixel in the color, depth
    /// and stencil buffers. `None` means "don't care". Default is `None`.
    /// A value of `Some(0)` indicates that multisampling must not be enabled.
    pub multisampling: Option<u16>,
    /// If true, only stereoscopic formats will be considered. If false, only
    /// non-stereoscopic formats. The default is `false`.
    pub stereoscopy: bool,
    /// If true, only sRGB-capable formats will be considered. If false, don't
    /// care. The default is `true`.
    pub srgb: bool,
    /// The behavior when changing the current context. Default is `Flush`.
    pub release_behavior: ReleaseBehavior,
    /// X11 only: set internally to insure a certain visual xid is used when
    /// choosing the fbconfig.
    pub x11_visual_xid: Option<u64>,
}

impl PixelFormatRequirements {
    /// The requirements that a window asks for when its builder names none.
    pub open spec fn standard() -> PixelFormatRequirements {
        PixelFormatRequirements {
            hardware_accelerated: Some(true),
            color_bits: Some(24u8),
            float_color_buffer: false,
            alpha_bits: Some(8u8),
            depth_bits: Some(24u8),
            stencil_bits: Some(8u8),
            double_buffer: Some(true),
            multisampling: None,
            stereoscopy: false,
            srgb: true,
            release_behavior: ReleaseBehavior::Flush,
            x11_visual_xid: None,
        }
    }
}

impl Default for PixelFormatRequirements {
    fn default() -> (reqs: PixelFormatRequirements)
        ensures
            reqs == PixelFormatRequirements::standard(),
    {
        PixelFormatRequirements {
            hardware_accelerated: Some(true),
            color_bits: Some(24),
            float_color_buffer: false,
            alpha_bits: Some(8),
            depth_bits: Some(24),
            stencil_bits: Some(8),
            double_buffer: Some(true),
            multisampling: None,
            stereoscopy: false,
            srgb: true,
            release_behavior: ReleaseBehavior::Flush,
            x11_visual_xid: None,
        }
    }
}

/// A lower bound on one bit depth: `None` asks for nothing.
pub open spec fn depth_met(required: Option<u8>, actual: u8) -> bool {
    required matches Some(n) ==> actual >= n
}

/// The depth to ask the platform for: `fallback` where none is required.
pub open spec fn depth_or(required: Option<u8>, fallback: u8) -> u8 {
    match required {
        Some(n) => n,
        None => fallback,
    }
}

/// Computes [`depth_or`].
pub fn depth_or_else(required: Option<u8>, fallback: u8) -> (n: u8)
    ensures
        n == depth_or(required, fallback),
{
    match required {
        Some(n) => n,
        None => fallback,
    }
}

/// An exact demand on one flag: `None` asks for nothing.
pub open spec fn flag_met(required: Option<bool>, actual: bool) -> bool {
    required matches Some(b) ==> actual == b
}

impl PixelFormat {
    /// Every bit depth of the format reaches what `reqs` asks of it.
    pub open spec fn meets_depths(self, reqs: PixelFormatRequirements) -> bool {
        &&& depth_met(reqs.color_bits, self.color_bits)
        &&& depth_met(reqs.alpha_bits, self.alpha_bits)
        &&& depth_met(reqs.depth_bits, self.depth_bits)
        &&& depth_met(reqs.stencil_bits, self.stencil_bits)
    }

    /// Decides [`PixelFormat::meets_depths`].
    pub fn satisfies_depths(&self, reqs: &PixelFormatRequirements) -> (ok: bool)
        ensures
            ok == self.meets_depths(*reqs),
    {
        depth_reached(reqs.color_bits, self.color_bits) && depth_reached(
            reqs.alpha_bits,
            self.alpha_bits,
        ) && depth_reached(reqs.depth_bits, self.depth_bits) && depth_reached(
            reqs.stencil_bits,
            self.stencil_bits,
        )
    }
}

/// Decides [`depth_met`].
pub fn depth_reached(required: Option<u8>, actual: u8) -> (ok: bool)
    ensures
        ok == depth_met(required, actual),
{
    match required {
        Some(n) => actual >= n,
        None => true,
    }
}

/// Decides [`flag_met`].
pub fn flag_matches(required: Option<bool>, actual: bool) -> (ok: bool)
    ensures
        ok == flag_met(required, actual),
{
    match required {
        Some(b) => actual == b,
        None => true,
    }
}

/// A negotiated format never falls below a depth that was asked for: with a
/// depth buffer of 24 bits and an alpha channel of 8 bits required, a format
/// that meets the requirements has at least those.
pub proof fn lemma_depth_lower_bounds(format: PixelFormat, reqs: PixelFormatRequirements)
    requires
        format.meets_depths(reqs),
        reqs.depth_bits == Some(24u8),
        reqs.alpha_bits == Some(8u8),
    ensures
        format.depth_bits >= 24,
        format.alpha_bits >= 8,
{
}

/// Attributes to use when creating an OpenGL context.
#[derive(Clone, Copy, Debug)]
pub struct GlAttributes {
    /// Version to try create. See [`GlRequest`] for more infos.
    ///
    /// The default is `Latest`.
    pub version: GlRequest,
    /// OpenGL profile to use.
    ///
    /// The default is `None`.
    pub profile: Option<GlProfile>,
    /// Whether to enable the `debug` flag of the context.
    ///
    /// Debug contexts are usually slower but give better error reporting.
    ///
    /// The default is `false`; a debug build of the embedding code turns it on.
    pub debug: bool,
    /// How the OpenGL context should detect errors.
    ///
    /// The default is `NotRobust` because this is what is typically expected
    /// when you create an OpenGL context. However for safety you should
    /// consider `TryRobustLoseContextOnReset`.
    pub robustness: Robustness,
    /// Whether to use vsync. If vsync is enabled, calling `swap_buffers` will
    /// block until the screen refreshes. This is typically used to prevent
    /// screen tearing.
    ///
    /// The default is `false`.
    pub vsync: bool,
}

impl Default for GlAttributes {
    fn default() -> (attrs: GlAttributes)
        ensures
            attrs == (GlAttributes {
                version: GlRequest::Latest,
                profile: None,
                debug: false,
                robustness: Robustness::NotRobust,
                vsync: false,
            }),
    {
        GlAttributes {
            version: GlRequest::Latest,
            profile: None,
            debug: false,
            robustness: Robustness::NotRobust,
            vsync: false,
        }
    }
}

} // verus!
