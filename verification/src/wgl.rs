//! Context negotiation against WGL: what the driver's capability string
//! allows, which attribute lists to hand over, and what to make of the format
//! that was granted.

use vstd::prelude::*;
use vstd::string::StringSliceAdditionalSpecFns;
use crate::error::NegotiationError;
use crate::extensions::{has_extension, lists};
use crate::gl::{
    depth_or, depth_or_else, flag_matches, flag_met, Api, GlAttributes, GlProfile, GlRequest,
    PixelFormat, PixelFormatRequirements, ReleaseBehavior, Robustness,
};

verus! {

pub const DRAW_TO_WINDOW_ARB: i32 = 0x2001;
pub const ACCELERATION_ARB: i32 = 0x2003;
pub const SUPPORT_OPENGL_ARB: i32 = 0x2010;
pub const DOUBLE_BUFFER_ARB: i32 = 0x2011;
pub const STEREO_ARB: i32 = 0x2012;
pub const PIXEL_TYPE_ARB: i32 = 0x2013;
pub const COLOR_BITS_ARB: i32 = 0x2014;
pub const RED_BITS_ARB: i32 = 0x2015;
pub const GREEN_BITS_ARB: i32 = 0x2017;
pub const BLUE_BITS_ARB: i32 = 0x2019;
pub const ALPHA_BITS_ARB: i32 = 0x201B;
pub const DEPTH_BITS_ARB: i32 = 0x2022;
pub const STENCIL_BITS_ARB: i32 = 0x2023;
pub const NO_ACCELERATION_ARB: i32 = 0x2025;
pub const FULL_ACCELERATION_ARB: i32 = 0x2027;
pub const TYPE_RGBA_ARB: i32 = 0x202B;
pub const SAMPLE_BUFFERS_ARB: i32 = 0x2041;
pub const SAMPLES_ARB: i32 = 0x2042;
pub const CONTEXT_MAJOR_VERSION_ARB: i32 = 0x2091;
pub const CONTEXT_MINOR_VERSION_ARB: i32 = 0x2092;
pub const CONTEXT_FLAGS_ARB: i32 = 0x2094;
pub const CONTEXT_RELEASE_BEHAVIOR_ARB: i32 = 0x2097;
pub const CONTEXT_RELEASE_BEHAVIOR_NONE_ARB: i32 = 0;
pub const FRAMEBUFFER_SRGB_CAPABLE_ARB: i32 = 0x20A9;
pub const FRAMEBUFFER_SRGB_CAPABLE_EXT: i32 = 0x20A9;
pub const TYPE_RGBA_FLOAT_ARB: i32 = 0x21A0;
pub const LOSE_CONTEXT_ON_RESET_ARB: i32 = 0x8252;
pub const CONTEXT_RESET_NOTIFICATION_STRATEGY_ARB: i32 = 0x8256;
pub const NO_RESET_NOTIFICATION_ARB: i32 = 0x8261;
pub const CONTEXT_PROFILE_MASK_ARB: i32 = 0x9126;
pub const CONTEXT_CORE_PROFILE_BIT_ARB: i32 = 0x1;
pub const CONTEXT_COMPATIBILITY_PROFILE_BIT_ARB: i32 = 0x2;
pub const CONTEXT_ES2_PROFILE_BIT_EXT: i32 = 0x4;
pub const CONTEXT_DEBUG_BIT_ARB: i32 = 0x1;
pub const CONTEXT_ROBUST_ACCESS_BIT_ARB: i32 = 0x4;

/// Descriptor flag: the format is double buffered.
pub const PFD_DOUBLEBUFFER: u32 = 0x1;
/// Descriptor flag: the format is stereoscopic.
pub const PFD_STEREO: u32 = 0x2;
/// Descriptor flag: the format can draw to a window.
pub const PFD_DRAW_TO_WINDOW: u32 = 0x4;
/// Descriptor flag: the format supports OpenGL.
pub const PFD_SUPPORT_OPENGL: u32 = 0x20;
/// Descriptor flag: the format is rendered in software.
pub const PFD_GENERIC_FORMAT: u32 = 0x40;
/// Descriptor pixel type: red, green, blue and alpha.
pub const PFD_TYPE_RGBA: u8 = 0;
/// Descriptor layer: the main plane.
pub const PFD_MAIN_PLANE: u8 = 0;

/// `extensions` names `name`.
pub open spec fn listed(extensions: &str, name: &str) -> bool {
    lists(extensions.spec_bytes(), name.spec_bytes())
}

/// What the driver's capability string allows.
#[derive(Debug, Clone, Copy, PartialEq, Eq, Structural)]
pub struct WglExtensions {
    /// `WGL_ARB_create_context`: contexts are created from an attribute list.
    pub create_context: bool,
    /// `WGL_ARB_create_context_profile`: the list may name a profile.
    pub create_context_profile: bool,
    /// `WGL_ARB_create_context_robustness`: the list may ask for robustness.
    pub create_context_robustness: bool,
    /// `WGL_EXT_create_context_es2_profile`: the list may ask for OpenGL ES.
    pub create_context_es2_profile: bool,
    /// `WGL_ARB_context_flush_control`: a format may keep from flushing.
    pub context_flush_control: bool,
    /// `WGL_ARB_framebuffer_sRGB`.
    pub framebuffer_srgb_arb: bool,
    /// `WGL_EXT_framebuffer_sRGB`.
    pub framebuffer_srgb_ext: bool,
    /// `WGL_ARB_multisample`: formats can be asked for by sample count.
    pub multisample: bool,
    /// `WGL_ARB_pixel_format`: formats are chosen from an attribute list.
    pub pixel_format: bool,
    /// `WGL_ARB_pixel_format_float`: formats may hold floating-point colors.
    pub pixel_format_float: bool,
    /// `WGL_EXT_swap_control`: the swap interval can be set.
    pub swap_control: bool,
}

impl WglExtensions {
    /// What the capability string `extensions` allows.
    pub open spec fn of(extensions: &str) -> WglExtensions {
        WglExtensions {
            create_context: listed(extensions, "WGL_ARB_create_context"),
            create_context_profile: listed(extensions, "WGL_ARB_create_context_profile"),
            create_context_robustness: listed(extensions, "WGL_ARB_create_context_robustness"),
            create_context_es2_profile: listed(extensions, "WGL_EXT_create_context_es2_profile"),
            context_flush_control: listed(extensions, "WGL_ARB_context_flush_control"),
            framebuffer_srgb_arb: listed(extensions, "WGL_ARB_framebuffer_sRGB"),
            framebuffer_srgb_ext: listed(extensions, "WGL_EXT_framebuffer_sRGB"),
            multisample: listed(extensions, "WGL_ARB_multisample"),
            pixel_format: listed(extensions, "WGL_ARB_pixel_format"),
            pixel_format_float: listed(extensions, "WGL_ARB_pixel_format_float"),
            swap_control: listed(extensions, "WGL_EXT_swap_control"),
        }
    }

    /// Reads the capability string of the driver.
    pub fn parse(extensions: &str) -> (found: WglExtensions)
        ensures
            found == WglExtensions::of(extensions),
    {
        WglExtensions {
            create_context: has_extension(extensions, "WGL_ARB_create_context"),
            create_context_profile: has_extension(extensions, "WGL_ARB_create_context_profile"),
            create_context_robustness: has_extension(
                extensions,
                "WGL_ARB_create_context_robustness",
            ),
            create_context_es2_profile: has_extension(
                extensions,
                "WGL_EXT_create_context_es2_profile",
            ),
            context_flush_control: has_extension(extensions, "WGL_ARB_context_flush_control"),
            framebuffer_srgb_arb: has_extension(extensions, "WGL_ARB_framebuffer_sRGB"),
            framebuffer_srgb_ext: has_extension(extensions, "WGL_EXT_framebuffer_sRGB"),
            multisample: has_extension(extensions, "WGL_ARB_multisample"),
            pixel_format: has_extension(extensions, "WGL_ARB_pixel_format"),
            pixel_format_float: has_extension(extensions, "WGL_ARB_pixel_format_float"),
            swap_control: has_extension(extensions, "WGL_EXT_swap_control"),
        }
    }

    /// What an empty capability string allows: nothing.
    pub open spec fn none() -> WglExtensions {
        WglExtensions {
            create_context: false,
            create_context_profile: false,
            create_context_robustness: false,
            create_context_es2_profile: false,
            context_flush_control: false,
            framebuffer_srgb_arb: false,
            framebuffer_srgb_ext: false,
            multisample: false,
            pixel_format: false,
            pixel_format_float: false,
            swap_control: false,
        }
    }

    /// Builds [`WglExtensions::none`], for a driver that has no capability
    /// string to read.
    pub fn no_extensions() -> (found: WglExtensions)
        ensures
            found == WglExtensions::none(),
    {
        WglExtensions {
            create_context: false,
            create_context_profile: false,
            create_context_robustness: false,
            create_context_es2_profile: false,
            context_flush_control: false,
            framebuffer_srgb_arb: false,
            framebuffer_srgb_ext: false,
            multisample: false,
            pixel_format: false,
            pixel_format_float: false,
            swap_control: false,
        }
    }

    /// The driver can make a robust context.
    pub open spec fn offers_robustness(self) -> bool {
        self.create_context && self.create_context_robustness
    }
}

/// Where the capability string is read from.
#[derive(Debug, Clone, Copy, PartialEq, Eq, Structural)]
pub enum ExtensionSource {
    /// The entry point of `WGL_ARB_extensions_string`.
    Arb,
    /// The entry point of `WGL_EXT_extensions_string`.
    Ext,
    /// Neither is there: the capability string is empty.
    Unavailable,
}

/// Picks the entry point to read the capability string from: the ARB one
/// where the driver has it, else the EXT one.
pub fn extension_source(arb_loaded: bool, ext_loaded: bool) -> (source: ExtensionSource)
    ensures
        source == if arb_loaded {
            ExtensionSource::Arb
        } else if ext_loaded {
            ExtensionSource::Ext
        } else {
            ExtensionSource::Unavailable
        },
{
    if arb_loaded {
        ExtensionSource::Arb
    } else if ext_loaded {
        ExtensionSource::Ext
    } else {
        ExtensionSource::Unavailable
    }
}

/// The number that stands for a flag in an attribute list.
pub open spec fn flag_value(flag: bool) -> i32 {
    if flag {
        1
    } else {
        0
    }
}

/// A pair of attribute name and depth, where a depth is required.
pub open spec fn depth_attribute(name: i32, required: Option<u8>) -> Seq<i32> {
    match required {
        Some(n) => seq![name, n as i32],
        None => seq![],
    }
}

/// The requirements ask for something that the driver's format chooser
/// cannot be told: floating-point colors, a sample count or an sRGB
/// framebuffer without the extension for it, or a release behaviour other
/// than flushing without flush control.
pub open spec fn arb_unsupported(ext: WglExtensions, reqs: PixelFormatRequirements) -> bool {
    ||| reqs.float_color_buffer && !ext.pixel_format_float
    ||| reqs.multisampling is Some && !ext.multisample
    ||| reqs.srgb && !ext.framebuffer_srgb_arb && !ext.framebuffer_srgb_ext
    ||| reqs.release_behavior != ReleaseBehavior::Flush && !ext.context_flush_control
}

/// How the list begins: a format that draws to a window with OpenGL, its
/// pixel type, and the acceleration where one is required.
pub open spec fn arb_surface_attributes(reqs: PixelFormatRequirements) -> Seq<i32> {
    seq![
        DRAW_TO_WINDOW_ARB,
        1i32,
        SUPPORT_OPENGL_ARB,
        1i32,
        PIXEL_TYPE_ARB,
        if reqs.float_color_buffer {
            TYPE_RGBA_FLOAT_ARB
        } else {
            TYPE_RGBA_ARB
        },
    ] + (match reqs.hardware_accelerated {
        Some(accelerated) => seq![
            ACCELERATION_ARB,
            if accelerated {
                FULL_ACCELERATION_ARB
            } else {
                NO_ACCELERATION_ARB
            },
        ],
        None => seq![],
    })
}

/// The depths that are required, each with its name: color, alpha, depth,
/// stencil.
pub open spec fn arb_depth_attributes(reqs: PixelFormatRequirements) -> Seq<i32> {
    depth_attribute(COLOR_BITS_ARB, reqs.color_bits) + depth_attribute(
        ALPHA_BITS_ARB,
        reqs.alpha_bits,
    ) + depth_attribute(DEPTH_BITS_ARB, reqs.depth_bits) + depth_attribute(
        STENCIL_BITS_ARB,
        reqs.stencil_bits,
    )
}

/// Double buffering, asked for unless the requirements forbid it; the sample
/// count where one is required, with sample buffers on unless it is zero;
/// stereoscopy.
pub open spec fn arb_buffer_attributes(reqs: PixelFormatRequirements) -> Seq<i32> {
    seq![DOUBLE_BUFFER_ARB, flag_value(reqs.double_buffer != Some(false))] + (
    match reqs.multisampling {
        Some(samples) => seq![
            SAMPLE_BUFFERS_ARB,
            flag_value(samples != 0),
            SAMPLES_ARB,
            samples as i32,
        ],
        None => seq![],
    }) + seq![STEREO_ARB, flag_value(reqs.stereoscopy)]
}

/// How the list ends: sRGB capability, named as the driver names it and
/// always with its value, since a driver may assume it where it is not
/// listed; the release behaviour where it is not to flush; the zero.
pub open spec fn arb_closing_attributes(ext: WglExtensions, reqs: PixelFormatRequirements) -> Seq<
    i32,
> {
    (if ext.framebuffer_srgb_arb {
        seq![FRAMEBUFFER_SRGB_CAPABLE_ARB, flag_value(reqs.srgb)]
    } else if ext.framebuffer_srgb_ext {
        seq![FRAMEBUFFER_SRGB_CAPABLE_EXT, flag_value(reqs.srgb)]
    } else {
        seq![]
    }) + (if reqs.release_behavior != ReleaseBehavior::Flush {
        seq![CONTEXT_RELEASE_BEHAVIOR_ARB, CONTEXT_RELEASE_BEHAVIOR_NONE_ARB]
    } else {
        seq![]
    }) + seq![0i32]
}

/// The attribute list that asks the driver's format chooser for `reqs`,
/// ended by a zero. Each requirement that is not "don't care" stands in it
/// with its exact value.
pub open spec fn arb_format_attributes(ext: WglExtensions, reqs: PixelFormatRequirements) -> Seq<
    i32,
> {
    arb_surface_attributes(reqs) + arb_depth_attributes(reqs) + arb_buffer_attributes(reqs)
        + arb_closing_attributes(ext, reqs)
}

/// Computes [`flag_value`].
fn flag_number(flag: bool) -> (n: i32)
    ensures
        n == flag_value(flag),
{
    if flag {
        1
    } else {
        0
    }
}

/// Appends [`depth_attribute`].
fn push_depth_attribute(out: &mut Vec<i32>, name: i32, required: Option<u8>)
    ensures
        final(out)@ == old(out)@ + depth_attribute(name, required),
{
    if let Some(n) = required {
        out.push(name);
        out.push(n as i32);
    }
}

/// Appends [`arb_surface_attributes`].
fn push_surface_attributes(out: &mut Vec<i32>, reqs: &PixelFormatRequirements)
    ensures
        final(out)@ == old(out)@ + arb_surface_attributes(*reqs),
{
    out.push(DRAW_TO_WINDOW_ARB);
    out.push(1);
    out.push(SUPPORT_OPENGL_ARB);
    out.push(1);
    out.push(PIXEL_TYPE_ARB);
    if reqs.float_color_buffer {
        out.push(TYPE_RGBA_FLOAT_ARB);
    } else {
        out.push(TYPE_RGBA_ARB);
    }
    if let Some(hardware_accelerated) = reqs.hardware_accelerated {
        out.push(ACCELERATION_ARB);
        if hardware_accelerated {
            out.push(FULL_ACCELERATION_ARB);
        } else {
            out.push(NO_ACCELERATION_ARB);
        }
    }
    assert(out@ =~= old(out)@ + arb_surface_attributes(*reqs));
}

/// Appends [`arb_depth_attributes`].
fn push_depth_attributes(out: &mut Vec<i32>, reqs: &PixelFormatRequirements)
    ensures
        final(out)@ == old(out)@ + arb_depth_attributes(*reqs),
{
    push_depth_attribute(out, COLOR_BITS_ARB, reqs.color_bits);
    push_depth_attribute(out, ALPHA_BITS_ARB, reqs.alpha_bits);
    push_depth_attribute(out, DEPTH_BITS_ARB, reqs.depth_bits);
    push_depth_attribute(out, STENCIL_BITS_ARB, reqs.stencil_bits);
    assert(out@ =~= old(out)@ + arb_depth_attributes(*reqs));
}

/// Appends [`arb_buffer_attributes`].
fn push_buffer_attributes(out: &mut Vec<i32>, reqs: &PixelFormatRequirements)
    ensures
        final(out)@ == old(out)@ + arb_buffer_attributes(*reqs),
{
    // Prefer double buffering if unspecified.
    let double_buffer = match reqs.double_buffer {
        Some(false) => false,
        _ => true,
    };
    out.push(DOUBLE_BUFFER_ARB);
    out.push(flag_number(double_buffer));
    if let Some(multisampling) = reqs.multisampling {
        out.push(SAMPLE_BUFFERS_ARB);
        out.push(flag_number(multisampling != 0));
        out.push(SAMPLES_ARB);
        out.push(multisampling as i32);
    }
    out.push(STEREO_ARB);
    out.push(flag_number(reqs.stereoscopy));
    assert(out@ =~= old(out)@ + arb_buffer_attributes(*reqs));
}

/// Appends [`arb_closing_attributes`].
fn push_closing_attributes(out: &mut Vec<i32>, ext: &WglExtensions, reqs: &PixelFormatRequirements)
    ensures
        final(out)@ == old(out)@ + arb_closing_attributes(*ext, *reqs),
{
    if ext.framebuffer_srgb_arb {
        out.push(FRAMEBUFFER_SRGB_CAPABLE_ARB);
        out.push(flag_number(reqs.srgb));
    } else if ext.framebuffer_srgb_ext {
        out.push(FRAMEBUFFER_SRGB_CAPABLE_EXT);
        out.push(flag_number(reqs.srgb));
    }
    match reqs.release_behavior {
        ReleaseBehavior::Flush => {},
        ReleaseBehavior::NoFlush => {
            out.push(CONTEXT_RELEASE_BEHAVIOR_ARB);
            out.push(CONTEXT_RELEASE_BEHAVIOR_NONE_ARB);
        },
    }
    out.push(0);
    assert(out@ =~= old(out)@ + arb_closing_attributes(*ext, *reqs));
}

/// Decides [`arb_unsupported`].
pub fn arb_refuses(ext: &WglExtensions, reqs: &PixelFormatRequirements) -> (refused: bool)
    ensures
        refused == arb_unsupported(*ext, *reqs),
{
    let keeps_unflushed = match reqs.release_behavior {
        ReleaseBehavior::Flush => false,
        ReleaseBehavior::NoFlush => true,
    };
    (reqs.float_color_buffer && !ext.pixel_format_float) || (reqs.multisampling.is_some()
        && !ext.multisample) || (reqs.srgb && !ext.framebuffer_srgb_arb
        && !ext.framebuffer_srgb_ext) || (keeps_unflushed && !ext.context_flush_control)
}

/// Writes the attribute list that asks the driver's format chooser for
/// `pf_reqs`, or refuses where the driver cannot be told what they ask.
pub fn choose_arb_pixel_format_id(ext: &WglExtensions, pf_reqs: &PixelFormatRequirements) -> (list:
    Result<Vec<i32>, NegotiationError>)
    ensures
        arb_unsupported(*ext, *pf_reqs) ==> list == Err::<Vec<i32>, NegotiationError>(
            NegotiationError::NoMatchingFormat,
        ),
        !arb_unsupported(*ext, *pf_reqs) ==> list is Ok && list->Ok_0@ == arb_format_attributes(
            *ext,
            *pf_reqs,
        ),
{
    if arb_refuses(ext, pf_reqs) {
        return Err(NegotiationError::NoMatchingFormat);
    }
    let mut out: Vec<i32> = Vec::new();
    push_surface_attributes(&mut out, pf_reqs);
    push_depth_attributes(&mut out, pf_reqs);
    push_buffer_attributes(&mut out, pf_reqs);
    push_closing_attributes(&mut out, ext, pf_reqs);
    assert(out@ =~= arb_format_attributes(*ext, *pf_reqs));
    Ok(out)
}

/// What the driver's format chooser answered.
#[derive(Debug, Clone, Copy, PartialEq, Eq, Structural)]
pub struct ArbChoice {
    /// The call succeeded.
    pub succeeded: bool,
    /// The format that it names.
    pub format_id: i32,
    /// How many formats it found.
    pub num_formats: u32,
}

/// The format that the chooser found, if it found one.
pub fn arb_chosen_format(choice: ArbChoice) -> (id: Result<i32, NegotiationError>)
    ensures
        id == if choice.succeeded && choice.num_formats != 0 {
            Ok::<i32, NegotiationError>(choice.format_id)
        } else {
            Err::<i32, NegotiationError>(NegotiationError::NoMatchingFormat)
        },
{
    if !choice.succeeded {
        return Err(NegotiationError::NoMatchingFormat);
    }
    if choice.num_formats == 0 {
        return Err(NegotiationError::NoMatchingFormat);
    }
    Ok(choice.format_id)
}

/// The part of a native pixel-format descriptor that is asked for or read.
/// Every other field of the descriptor is zero.
#[derive(Debug, Clone, Copy, PartialEq, Eq, Structural)]
pub struct PixelFormatDescriptor {
    pub version: u16,
    pub flags: u32,
    pub pixel_type: u8,
    pub color_bits: u8,
    pub red_bits: u8,
    pub green_bits: u8,
    pub blue_bits: u8,
    pub alpha_bits: u8,
    pub depth_bits: u8,
    pub stencil_bits: u8,
    pub layer_type: u8,
}

/// The descriptor of a format that the main video driver of the system is
/// likely to have: double buffered, 24 color, 8 alpha, 24 depth and 8
/// stencil bits.
pub open spec fn dummy_descriptor() -> PixelFormatDescriptor {
    PixelFormatDescriptor {
        version: 1,
        flags: PFD_DRAW_TO_WINDOW | PFD_SUPPORT_OPENGL | PFD_DOUBLEBUFFER,
        pixel_type: PFD_TYPE_RGBA,
        color_bits: 24,
        red_bits: 0,
        green_bits: 0,
        blue_bits: 0,
        alpha_bits: 8,
        depth_bits: 24,
        stencil_bits: 8,
        layer_type: PFD_MAIN_PLANE,
    }
}

/// Builds [`dummy_descriptor`], the format of the invisible window on which
/// the driver's entry points are loaded.
pub fn choose_dummy_pixel_format() -> (descriptor: PixelFormatDescriptor)
    ensures
        descriptor == dummy_descriptor(),
{
    PixelFormatDescriptor {
        version: 1,
        flags: PFD_DRAW_TO_WINDOW | PFD_SUPPORT_OPENGL | PFD_DOUBLEBUFFER,
        pixel_type: PFD_TYPE_RGBA,
        color_bits: 24,
        red_bits: 0,
        green_bits: 0,
        blue_bits: 0,
        alpha_bits: 8,
        depth_bits: 24,
        stencil_bits: 8,
        layer_type: PFD_MAIN_PLANE,
    }
}

/// The format that the native chooser found: it answers 0 where it found
/// none.
pub fn native_chosen_format(format_id: i32) -> (id: Result<i32, NegotiationError>)
    ensures
        id == if format_id != 0 {
            Ok::<i32, NegotiationError>(format_id)
        } else {
            Err::<i32, NegotiationError>(NegotiationError::NoMatchingFormat)
        },
{
    if format_id == 0 {
        return Err(NegotiationError::NoMatchingFormat);
    }
    Ok(format_id)
}

/// The requirements ask for something that a native descriptor cannot say:
/// floating-point colors, multisampling, stereoscopy, an sRGB framebuffer, or
/// a release behaviour other than flushing.
pub open spec fn native_unsupported(reqs: PixelFormatRequirements) -> bool {
    ||| reqs.float_color_buffer
    ||| (reqs.multisampling matches Some(samples) && samples != 0)
    ||| reqs.stereoscopy
    ||| reqs.srgb
    ||| reqs.release_behavior != ReleaseBehavior::Flush
}

/// The descriptor that asks the native chooser for `reqs`. A depth that is
/// left open is asked for as 0; double buffering is asked for unless the
/// requirements forbid it.
pub open spec fn native_descriptor(reqs: PixelFormatRequirements) -> PixelFormatDescriptor {
    PixelFormatDescriptor {
        version: 1,
        flags: PFD_DRAW_TO_WINDOW | PFD_SUPPORT_OPENGL | (if reqs.double_buffer == Some(false) {
            0u32
        } else {
            PFD_DOUBLEBUFFER
        }),
        pixel_type: PFD_TYPE_RGBA,
        color_bits: depth_or(reqs.color_bits, 0),
        red_bits: 0,
        green_bits: 0,
        blue_bits: 0,
        alpha_bits: depth_or(reqs.alpha_bits, 0),
        depth_bits: depth_or(reqs.depth_bits, 0),
        stencil_bits: depth_or(reqs.stencil_bits, 0),
        layer_type: PFD_MAIN_PLANE,
    }
}

/// Decides [`native_unsupported`].
pub fn native_refuses(reqs: &PixelFormatRequirements) -> (refused: bool)
    ensures
        refused == native_unsupported(*reqs),
{
    let multisampled = match reqs.multisampling {
        Some(samples) => samples != 0,
        None => false,
    };
    let keeps_unflushed = match reqs.release_behavior {
        ReleaseBehavior::Flush => false,
        ReleaseBehavior::NoFlush => true,
    };
    reqs.float_color_buffer || multisampled || reqs.stereoscopy || reqs.srgb || keeps_unflushed
}

/// Writes the descriptor that asks the native chooser for `pf_reqs`, or
/// refuses where a descriptor cannot say what they ask. This path knows less
/// than the driver's own chooser.
pub fn choose_native_pixel_format_id(pf_reqs: &PixelFormatRequirements) -> (descriptor: Result<
    PixelFormatDescriptor,
    NegotiationError,
>)
    ensures
        descriptor == if native_unsupported(*pf_reqs) {
            Err::<PixelFormatDescriptor, NegotiationError>(NegotiationError::NoMatchingFormat)
        } else {
            Ok::<PixelFormatDescriptor, NegotiationError>(native_descriptor(*pf_reqs))
        },
{
    if native_refuses(pf_reqs) {
        return Err(NegotiationError::NoMatchingFormat);
    }
    let buffering: u32 = match pf_reqs.double_buffer {
        Some(false) => 0,
        _ => PFD_DOUBLEBUFFER,
    };
    Ok(
        PixelFormatDescriptor {
            version: 1,
            flags: PFD_DRAW_TO_WINDOW | PFD_SUPPORT_OPENGL | buffering,
            pixel_type: PFD_TYPE_RGBA,
            color_bits: depth_or_else(pf_reqs.color_bits, 0),
            red_bits: 0,
            green_bits: 0,
            blue_bits: 0,
            alpha_bits: depth_or_else(pf_reqs.alpha_bits, 0),
            depth_bits: depth_or_else(pf_reqs.depth_bits, 0),
            stencil_bits: depth_or_else(pf_reqs.stencil_bits, 0),
            layer_type: PFD_MAIN_PLANE,
        },
    )
}

/// The descriptor describes a format that can be used at all: one that draws
/// to a window with OpenGL in red, green, blue and alpha, and whose color
/// depth can be written down.
pub open spec fn native_conforming(output: PixelFormatDescriptor) -> bool {
    &&& output.flags & PFD_DRAW_TO_WINDOW != 0
    &&& output.flags & PFD_SUPPORT_OPENGL != 0
    &&& output.pixel_type == PFD_TYPE_RGBA
    &&& output.red_bits + output.green_bits + output.blue_bits <= u8::MAX
}

/// The format that the descriptor describes. Its color depth is the sum of
/// the three channels. A descriptor knows nothing of multisampling or sRGB.
pub open spec fn native_format(output: PixelFormatDescriptor) -> PixelFormat {
    PixelFormat {
        hardware_accelerated: output.flags & PFD_GENERIC_FORMAT == 0,
        color_bits: (output.red_bits + output.green_bits + output.blue_bits) as u8,
        alpha_bits: output.alpha_bits,
        depth_bits: output.depth_bits,
        stencil_bits: output.stencil_bits,
        stereoscopy: output.flags & PFD_STEREO != 0,
        double_buffer: output.flags & PFD_DOUBLEBUFFER != 0,
        multisampling: None,
        srgb: false,
    }
}

/// The described format can be used and is what `reqs` asks for: no depth
/// below a required one, acceleration and double buffering as required.
pub open spec fn native_acceptable(
    output: PixelFormatDescriptor,
    reqs: PixelFormatRequirements,
) -> bool {
    &&& native_conforming(output)
    &&& native_format(output).meets_depths(reqs)
    &&& flag_met(reqs.hardware_accelerated, native_format(output).hardware_accelerated)
    &&& flag_met(reqs.double_buffer, native_format(output).double_buffer)
}

/// What comes of reading a format back through its descriptor; `None`
/// stands for a descriptor that could not be read.
pub open spec fn native_result(
    output: Option<PixelFormatDescriptor>,
    reqs: PixelFormatRequirements,
) -> Result<PixelFormat, NegotiationError> {
    match output {
        Some(d) if native_acceptable(d, reqs) => Ok(native_format(d)),
        _ => Err(NegotiationError::NoMatchingFormat),
    }
}

/// Reads the granted format back from its descriptor and holds it against
/// the requirements: the chooser may answer with a format that does not
/// conform when it has none that does.
pub fn choose_native_pixel_format(
    output: Option<PixelFormatDescriptor>,
    pf_reqs: &PixelFormatRequirements,
) -> (format: Result<PixelFormat, NegotiationError>)
    ensures
        format == native_result(output, *pf_reqs),
        format matches Ok(f) ==> f.meets_depths(*pf_reqs),
{
    let output = match output {
        Some(d) => d,
        None => {
            return Err(NegotiationError::NoMatchingFormat);
        },
    };
    if (output.flags & PFD_DRAW_TO_WINDOW) == 0 {
        return Err(NegotiationError::NoMatchingFormat);
    }
    if (output.flags & PFD_SUPPORT_OPENGL) == 0 {
        return Err(NegotiationError::NoMatchingFormat);
    }
    if output.pixel_type != PFD_TYPE_RGBA {
        return Err(NegotiationError::NoMatchingFormat);
    }
    let color: u16 = output.red_bits as u16 + output.green_bits as u16 + output.blue_bits as u16;
    if color > 255 {
        return Err(NegotiationError::NoMatchingFormat);
    }
    let pf_desc = PixelFormat {
        hardware_accelerated: (output.flags & PFD_GENERIC_FORMAT) == 0,
        color_bits: color as u8,
        alpha_bits: output.alpha_bits,
        depth_bits: output.depth_bits,
        stencil_bits: output.stencil_bits,
        stereoscopy: (output.flags & PFD_STEREO) != 0,
        double_buffer: (output.flags & PFD_DOUBLEBUFFER) != 0,
        multisampling: None,
        srgb: false,
    };
    if !pf_desc.satisfies_depths(pf_reqs) {
        return Err(NegotiationError::NoMatchingFormat);
    }
    if !flag_matches(pf_reqs.hardware_accelerated, pf_desc.hardware_accelerated) {
        return Err(NegotiationError::NoMatchingFormat);
    }
    if !flag_matches(pf_reqs.double_buffer, pf_desc.double_buffer) {
        return Err(NegotiationError::NoMatchingFormat);
    }
    Ok(pf_desc)
}

/// What the driver reports of a format, attribute by attribute.
#[derive(Debug, Clone, Copy, PartialEq, Eq, Structural)]
pub struct ArbFormatValues {
    pub acceleration: u32,
    pub red_bits: u32,
    pub green_bits: u32,
    pub blue_bits: u32,
    pub alpha_bits: u32,
    pub depth_bits: u32,
    pub stencil_bits: u32,
    pub stereo: u32,
    pub double_buffer: u32,
    pub samples: u32,
    pub srgb_capable: u32,
}

/// The low eight bits of `value`.
pub open spec fn low_byte(value: u32) -> u8 {
    (value % 256) as u8
}

/// The color depth that the values report: the sum of the three channels,
/// each taken by its low eight bits.
pub open spec fn arb_color_bits(values: ArbFormatValues) -> int {
    low_byte(values.red_bits) + low_byte(values.green_bits) + low_byte(values.blue_bits)
}

/// The format that the values describe. The sample count and the sRGB
/// capability are only read where the driver knows of them.
pub open spec fn arb_format(ext: WglExtensions, values: ArbFormatValues) -> PixelFormat {
    PixelFormat {
        hardware_accelerated: values.acceleration != NO_ACCELERATION_ARB,
        color_bits: arb_color_bits(values) as u8,
        alpha_bits: low_byte(values.alpha_bits),
        depth_bits: low_byte(values.depth_bits),
        stencil_bits: low_byte(values.stencil_bits),
        stereoscopy: values.stereo != 0,
        double_buffer: values.double_buffer != 0,
        multisampling: if ext.multisample && values.samples != 0 {
            Some((values.samples % 65536) as u16)
        } else {
            None
        },
        srgb: (ext.framebuffer_srgb_arb || ext.framebuffer_srgb_ext) && values.srgb_capable != 0,
    }
}

/// What comes of reading a format back from the driver: the format that the
/// values describe, unless its color depth cannot be written down or it
/// falls below a required depth.
pub open spec fn arb_result(
    ext: WglExtensions,
    values: ArbFormatValues,
    reqs: PixelFormatRequirements,
) -> Result<PixelFormat, NegotiationError> {
    if arb_color_bits(values) <= u8::MAX && arb_format(ext, values).meets_depths(reqs) {
        Ok(arb_format(ext, values))
    } else {
        Err(NegotiationError::NoMatchingFormat)
    }
}

/// Computes [`low_byte`].
fn low_byte_of(value: u32) -> (b: u8)
    ensures
        b == low_byte(value),
{
    (value % 256) as u8
}

/// Reads the granted format back from what the driver reports of it, and
/// holds it against the requirements.
pub fn choose_arb_pixel_format(
    ext: &WglExtensions,
    values: &ArbFormatValues,
    pf_reqs: &PixelFormatRequirements,
) -> (format: Result<PixelFormat, NegotiationError>)
    ensures
        format == arb_result(*ext, *values, *pf_reqs),
        format matches Ok(f) ==> f.meets_depths(*pf_reqs),
{
    let color: u16 = low_byte_of(values.red_bits) as u16 + low_byte_of(values.green_bits) as u16
        + low_byte_of(values.blue_bits) as u16;
    if color > 255 {
        return Err(NegotiationError::NoMatchingFormat);
    }
    let pf_desc = PixelFormat {
        hardware_accelerated: values.acceleration != NO_ACCELERATION_ARB as u32,
        color_bits: color as u8,
        alpha_bits: low_byte_of(values.alpha_bits),
        depth_bits: low_byte_of(values.depth_bits),
        stencil_bits: low_byte_of(values.stencil_bits),
        stereoscopy: values.stereo != 0,
        double_buffer: values.double_buffer != 0,
        multisampling: if ext.multisample && values.samples != 0 {
            Some((values.samples % 65536) as u16)
        } else {
            None
        },
        srgb: (ext.framebuffer_srgb_arb || ext.framebuffer_srgb_ext) && values.srgb_capable != 0,
    };
    if !pf_desc.satisfies_depths(pf_reqs) {
        return Err(NegotiationError::NoMatchingFormat);
    }
    Ok(pf_desc)
}

/// Whichever way the format is read back, a granted format has at least the
/// depth and alpha bits that were required.
pub proof fn lemma_granted_depths(
    ext: WglExtensions,
    values: ArbFormatValues,
    output: Option<PixelFormatDescriptor>,
    reqs: PixelFormatRequirements,
)
    requires
        reqs.depth_bits == Some(24u8),
        reqs.alpha_bits == Some(8u8),
    ensures
        arb_result(ext, values, reqs) matches Ok(f) ==> f.depth_bits >= 24 && f.alpha_bits >= 8,
        native_result(output, reqs) matches Ok(f) ==> f.depth_bits >= 24 && f.alpha_bits >= 8,
{
}

/// How to ask the driver for a context.
#[derive(Debug)]
pub enum ContextRequest {
    /// By the basic entry point, which takes no wishes and gives the latest
    /// legacy context.
    Basic,
    /// By the entry point that takes this attribute list.
    Attributes(Vec<i32>),
}

/// Why the driver cannot be asked for the context that `opengl` describes,
/// if so. A robustness that the caller depends on is looked at first, then
/// the version, then the profile.
///
/// - The two robust modes that must not be dropped need a driver that can
///   make a robust context. The other modes are dropped silently where it
///   cannot.
/// - OpenGL ES needs the extension for it; WebGL is never to be had.
/// - A profile can only be named where the driver knows of profiles.
pub open spec fn context_refusal(ext: WglExtensions, opengl: GlAttributes) -> Option<
    NegotiationError,
> {
    if opengl.robustness.is_mandatory() && !ext.offers_robustness() {
        Some(NegotiationError::RobustnessUnsupported)
    } else if !ext.create_context {
        None
    } else if opengl.version matches GlRequest::Specific(api, _) && (api == Api::WebGl || (api
        == Api::OpenGlEs && !ext.create_context_es2_profile)) {
        Some(NegotiationError::VersionUnsupported)
    } else if opengl.profile is Some && !ext.create_context_profile {
        Some(NegotiationError::ProfileUnsupported)
    } else {
        None
    }
}

/// Major and minor version, each with its name.
pub open spec fn version_pair(version: (u8, u8)) -> Seq<i32> {
    seq![
        CONTEXT_MAJOR_VERSION_ARB,
        version.0 as i32,
        CONTEXT_MINOR_VERSION_ARB,
        version.1 as i32,
    ]
}

/// The version that the list asks for: none for the latest; for OpenGL ES
/// the ES profile first.
pub open spec fn version_attributes(version: GlRequest) -> Seq<i32> {
    match version {
        GlRequest::Latest => seq![],
        GlRequest::Specific(Api::OpenGl, v) => version_pair(v),
        GlRequest::Specific(Api::OpenGlEs, v) => seq![
            CONTEXT_PROFILE_MASK_ARB,
            CONTEXT_ES2_PROFILE_BIT_EXT,
        ] + version_pair(v),
        GlRequest::Specific(Api::WebGl, _) => seq![],
        GlRequest::GlThenGles { opengl_version, .. } => version_pair(opengl_version),
    }
}

/// The profile that the list asks for, where one is named.
pub open spec fn profile_attributes(profile: Option<GlProfile>) -> Seq<i32> {
    match profile {
        Some(GlProfile::Compatibility) => seq![
            CONTEXT_PROFILE_MASK_ARB,
            CONTEXT_COMPATIBILITY_PROFILE_BIT_ARB,
        ],
        Some(GlProfile::Core) => seq![CONTEXT_PROFILE_MASK_ARB, CONTEXT_CORE_PROFILE_BIT_ARB],
        None => seq![],
    }
}

/// How a robust context tells of a reset, where robustness is asked for.
pub open spec fn reset_strategy(robustness: Robustness) -> Option<i32> {
    match robustness {
        Robustness::RobustNoResetNotification
        | Robustness::TryRobustNoResetNotification => Some(NO_RESET_NOTIFICATION_ARB),
        Robustness::RobustLoseContextOnReset | Robustness::TryRobustLoseContextOnReset => Some(
            LOSE_CONTEXT_ON_RESET_ARB,
        ),
        Robustness::NotRobust | Robustness::NoError => None,
    }
}

/// The context flags: robust access and debug, each a bit of its own.
pub open spec fn context_flags(robust: bool, debug: bool) -> i32 {
    (if robust {
        CONTEXT_ROBUST_ACCESS_BIT_ARB
    } else {
        0i32
    }) | (if debug {
        CONTEXT_DEBUG_BIT_ARB
    } else {
        0i32
    })
}

/// The reset strategy that the list asks for, where robustness is asked for
/// and the driver knows of it, and the context flags, with robust access in
/// just that case.
pub open spec fn flag_attributes(ext: WglExtensions, opengl: GlAttributes) -> Seq<i32> {
    match reset_strategy(opengl.robustness) {
        Some(strategy) if ext.create_context_robustness => seq![
            CONTEXT_RESET_NOTIFICATION_STRATEGY_ARB,
            strategy,
            CONTEXT_FLAGS_ARB,
            context_flags(true, opengl.debug),
        ],
        _ => seq![CONTEXT_FLAGS_ARB, context_flags(false, opengl.debug)],
    }
}

/// The attribute list that asks for the context that `opengl` describes,
/// ended by a zero.
pub open spec fn context_attributes(ext: WglExtensions, opengl: GlAttributes) -> Seq<i32> {
    version_attributes(opengl.version) + profile_attributes(opengl.profile) + flag_attributes(
        ext,
        opengl,
    ) + seq![0i32]
}

/// Decides [`context_refusal`].
pub fn context_refused(ext: &WglExtensions, opengl: &GlAttributes) -> (refusal: Option<
    NegotiationError,
>)
    ensures
        refusal == context_refusal(*ext, *opengl),
{
    if opengl.robustness.mandatory() && !(ext.create_context && ext.create_context_robustness) {
        return Some(NegotiationError::RobustnessUnsupported);
    }
    if !ext.create_context {
        return None;
    }
    match opengl.version {
        GlRequest::Specific(Api::WebGl, _) => {
            return Some(NegotiationError::VersionUnsupported);
        },
        GlRequest::Specific(Api::OpenGlEs, _) => {
            if !ext.create_context_es2_profile {
                return Some(NegotiationError::VersionUnsupported);
            }
        },
        _ => {},
    }
    if opengl.profile.is_some() && !ext.create_context_profile {
        return Some(NegotiationError::ProfileUnsupported);
    }
    None
}

/// Appends [`version_pair`].
fn push_version_pair(attributes: &mut Vec<i32>, version: (u8, u8))
    ensures
        final(attributes)@ == old(attributes)@ + version_pair(version),
{
    attributes.push(CONTEXT_MAJOR_VERSION_ARB);
    attributes.push(version.0 as i32);
    attributes.push(CONTEXT_MINOR_VERSION_ARB);
    attributes.push(version.1 as i32);
}

/// Appends [`version_attributes`].
fn push_version_attributes(attributes: &mut Vec<i32>, version: &GlRequest)
    ensures
        final(attributes)@ == old(attributes)@ + version_attributes(*version),
{
    match version {
        GlRequest::Latest => {},
        GlRequest::Specific(Api::OpenGl, v) => {
            push_version_pair(attributes, *v);
        },
        GlRequest::Specific(Api::OpenGlEs, v) => {
            attributes.push(CONTEXT_PROFILE_MASK_ARB);
            attributes.push(CONTEXT_ES2_PROFILE_BIT_EXT);
            push_version_pair(attributes, *v);
        },
        GlRequest::Specific(Api::WebGl, _) => {},
        GlRequest::GlThenGles { opengl_version, .. } => {
            push_version_pair(attributes, *opengl_version);
        },
    }
    assert(attributes@ =~= old(attributes)@ + version_attributes(*version));
}

/// Appends [`profile_attributes`].
fn push_profile_attributes(attributes: &mut Vec<i32>, profile: Option<GlProfile>)
    ensures
        final(attributes)@ == old(attributes)@ + profile_attributes(profile),
{
    if let Some(profile) = profile {
        let flag = match profile {
            GlProfile::Compatibility => CONTEXT_COMPATIBILITY_PROFILE_BIT_ARB,
            GlProfile::Core => CONTEXT_CORE_PROFILE_BIT_ARB,
        };
        attributes.push(CONTEXT_PROFILE_MASK_ARB);
        attributes.push(flag);
    }
}

/// Computes [`reset_strategy`].
fn reset_strategy_of(robustness: Robustness) -> (strategy: Option<i32>)
    ensures
        strategy == reset_strategy(robustness),
{
    match robustness {
        Robustness::RobustNoResetNotification
        | Robustness::TryRobustNoResetNotification => Some(NO_RESET_NOTIFICATION_ARB),
        Robustness::RobustLoseContextOnReset | Robustness::TryRobustLoseContextOnReset => Some(
            LOSE_CONTEXT_ON_RESET_ARB,
        ),
        Robustness::NotRobust | Robustness::NoError => None,
    }
}

/// Computes [`context_flags`].
fn context_flags_of(robust: bool, debug: bool) -> (flags: i32)
    ensures
        flags == context_flags(robust, debug),
{
    let robust_bit: i32 = if robust {
        CONTEXT_ROBUST_ACCESS_BIT_ARB
    } else {
        0
    };
    let debug_bit: i32 = if debug {
        CONTEXT_DEBUG_BIT_ARB
    } else {
        0
    };
    robust_bit | debug_bit
}

/// Appends [`flag_attributes`].
fn push_flag_attributes(attributes: &mut Vec<i32>, ext: &WglExtensions, opengl: &GlAttributes)
    ensures
        final(attributes)@ == old(attributes)@ + flag_attributes(*ext, *opengl),
{
    let mut robust = false;
    if ext.create_context_robustness {
        if let Some(strategy) = reset_strategy_of(opengl.robustness) {
            attributes.push(CONTEXT_RESET_NOTIFICATION_STRATEGY_ARB);
            attributes.push(strategy);
            robust = true;
        }
    }
    attributes.push(CONTEXT_FLAGS_ARB);
    attributes.push(context_flags_of(robust, opengl.debug));
    assert(attributes@ =~= old(attributes)@ + flag_attributes(*ext, *opengl));
}

/// Says how to ask the driver for a context.
///
/// With `extra`, the capability string and the wishes of the caller, the
/// driver is asked by attribute list where it takes one. Without, as for the
/// invisible window on which the entry points are loaded, and where the
/// driver takes no list, the basic entry point is used.
pub fn create_context(extra: Option<(&WglExtensions, &GlAttributes)>) -> (request: Result<
    ContextRequest,
    NegotiationError,
>)
    ensures
        extra is None ==> request matches Ok(ContextRequest::Basic),
        extra matches Some((ext, opengl)) ==> match context_refusal(*ext, *opengl) {
            Some(e) => request matches Err(f) && f == e,
            None => if ext.create_context {
                request matches Ok(ContextRequest::Attributes(list)) && list@
                    == context_attributes(*ext, *opengl)
            } else {
                request matches Ok(ContextRequest::Basic)
            },
        },
{
    let (ext, opengl) = match extra {
        Some(pair) => pair,
        None => {
            return Ok(ContextRequest::Basic);
        },
    };
    if let Some(e) = context_refused(ext, opengl) {
        return Err(e);
    }
    if !ext.create_context {
        return Ok(ContextRequest::Basic);
    }
    let mut attributes: Vec<i32> = Vec::new();
    push_version_attributes(&mut attributes, &opengl.version);
    push_profile_attributes(&mut attributes, opengl.profile);
    push_flag_attributes(&mut attributes, ext, opengl);
    attributes.push(0);
    assert(attributes@ =~= context_attributes(*ext, *opengl));
    Ok(ContextRequest::Attributes(attributes))
}

/// The swap interval to set once the context is made: 1 to wait for the
/// display, 0 not to; `None` where the driver cannot set one.
pub fn swap_interval(ext: &WglExtensions, opengl: &GlAttributes) -> (interval: Option<i32>)
    ensures
        interval == if !ext.swap_control {
            None::<i32>
        } else if opengl.vsync {
            Some(1i32)
        } else {
            Some(0i32)
        },
{
    if !ext.swap_control {
        None
    } else if opengl.vsync {
        Some(1)
    } else {
        Some(0)
    }
}

/// Every list that is handed to the driver ends with a zero.
pub proof fn lemma_lists_end_with_zero(
    ext: WglExtensions,
    reqs: PixelFormatRequirements,
    opengl: GlAttributes,
)
    ensures
        arb_format_attributes(ext, reqs).last() == 0,
        context_attributes(ext, opengl).last() == 0,
{
}

/// The flags as numbers: what the library asks a chooser for draws to a
/// window with OpenGL, double buffered unless that is forbidden; and the
/// context flags are the sum of their bits.
pub proof fn lemma_flag_values(reqs: PixelFormatRequirements)
    ensures
        dummy_descriptor().flags == 0x25,
        native_descriptor(reqs).flags == if reqs.double_buffer == Some(false) {
            0x24u32
        } else {
            0x25u32
        },
        native_descriptor(reqs).flags & PFD_DRAW_TO_WINDOW != 0,
        native_descriptor(reqs).flags & PFD_SUPPORT_OPENGL != 0,
        context_flags(false, false) == 0,
        context_flags(false, true) == 1,
        context_flags(true, false) == 4,
        context_flags(true, true) == 5,
{
    assert(0x4u32 | 0x20 | 0x1 == 0x25 && 0x4u32 | 0x20 | 0 == 0x24 && 0x25u32 & 0x4 != 0 && 0x25u32
        & 0x20 != 0 && 0x24u32 & 0x4 != 0 && 0x24u32 & 0x20 != 0) by (bit_vector);
    assert(0i32 | 0 == 0 && 0i32 | 1 == 1 && 4i32 | 0 == 4 && 4i32 | 1 == 5) by (bit_vector);
}

/// A format exactly as the native chooser was asked for it is accepted when
/// it is read back, if it is accelerated where that is cared for.
pub proof fn lemma_format_as_asked_is_accepted(reqs: PixelFormatRequirements, color: (u8, u8, u8))
    requires
        !native_unsupported(reqs),
        reqs.hardware_accelerated != Some(false),
        color.0 + color.1 + color.2 == depth_or(reqs.color_bits, 0),
    ensures
        native_result(
            Some(
                PixelFormatDescriptor {
                    red_bits: color.0,
                    green_bits: color.1,
                    blue_bits: color.2,
                    ..native_descriptor(reqs)
                },
            ),
            reqs,
        ) is Ok,
{
    lemma_flag_values(reqs);
    assert(0x25u32 & 0x40 == 0 && 0x24u32 & 0x40 == 0 && 0x25u32 & 0x1 != 0 && 0x24u32 & 0x1 == 0)
        by (bit_vector);
}

} // verus!
