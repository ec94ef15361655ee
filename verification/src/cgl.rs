//! Context negotiation against the macOS pixel-format interface: which
//! profile to ask for, which attribute list to hand over, and what to make of
//! the format that was granted.

use vstd::prelude::*;
use crate::error::{ContextError, CreationError, Feature, NativeCall, NegotiationError};
use crate::gl::{
    depth_or, depth_or_else, Api, GlAttributes, GlProfile, GlRequest, PixelFormat,
    PixelFormatRequirements, ReleaseBehavior,
};

verus! {

/// Attribute name: the format must be double buffered.
pub const PFA_DOUBLE_BUFFER: u32 = 5;
/// Attribute name: the format must be stereoscopic.
pub const PFA_STEREO: u32 = 6;
/// Attribute name: bits of the color buffer, alpha included.
pub const PFA_COLOR_SIZE: u32 = 8;
/// Attribute name: bits of the alpha channel.
pub const PFA_ALPHA_SIZE: u32 = 11;
/// Attribute name: bits of the depth buffer.
pub const PFA_DEPTH_SIZE: u32 = 12;
/// Attribute name: bits of the stencil buffer.
pub const PFA_STENCIL_SIZE: u32 = 13;
/// Attribute name: number of multisample buffers.
pub const PFA_SAMPLE_BUFFERS: u32 = 55;
/// Attribute name: samples per multisample buffer.
pub const PFA_SAMPLES: u32 = 56;
/// Attribute name: the color buffer holds floating-point values.
pub const PFA_COLOR_FLOAT: u32 = 58;
/// Attribute name: the format multisamples.
pub const PFA_MULTISAMPLE: u32 = 59;
/// Attribute name: only hardware-accelerated renderers.
pub const PFA_ACCELERATED: u32 = 73;
/// Attribute name: prefer the format closest to the sizes asked for.
pub const PFA_CLOSEST_POLICY: u32 = 74;
/// Attribute name: renderers without a display may be used.
pub const PFA_ALLOW_OFFLINE_RENDERERS: u32 = 96;
/// Attribute name: the profile follows.
pub const PFA_OPENGL_PROFILE: u32 = 99;

/// The profiles that a pixel format can be asked for.
#[derive(Debug, Clone, Copy, PartialEq, Eq, Structural)]
pub enum OpenGlProfile {
    /// The pre-3.2 feature set.
    Legacy,
    /// The 3.2 core profile.
    Core32,
    /// The 4.1 core profile.
    Core41,
}

impl OpenGlProfile {
    /// The number that names the profile in an attribute list.
    pub open spec fn raw(self) -> u32 {
        match self {
            OpenGlProfile::Legacy => 0x1000,
            OpenGlProfile::Core32 => 0x3200,
            OpenGlProfile::Core41 => 0x4100,
        }
    }

    /// The number that names the profile in an attribute list.
    pub fn to_raw(&self) -> (n: u32)
        ensures
            n == self.raw(),
    {
        match self {
            OpenGlProfile::Legacy => 0x1000,
            OpenGlProfile::Core32 => 0x3200,
            OpenGlProfile::Core41 => 0x4100,
        }
    }
}

/// `version` comes before `major.minor`.
pub open spec fn version_below(version: (u8, u8), major: u8, minor: u8) -> bool {
    version.0 < major || (version.0 == major && version.1 < minor)
}

/// Decides [`version_below`].
pub fn is_version_below(version: (u8, u8), major: u8, minor: u8) -> (b: bool)
    ensures
        b == version_below(version, major, minor),
{
    version.0 < major || (version.0 == major && version.1 < minor)
}

/// How far the choice of a profile has come.
#[derive(Debug, Clone, Copy, PartialEq, Eq, Structural)]
pub enum ProfileSearch {
    /// The request alone decides.
    Resolved(OpenGlProfile),
    /// The platform must be asked whether it accepts this profile.
    Probe(OpenGlProfile),
}

/// The profile that the request asks for, as far as the request decides it.
/// The version decides, whichever API it is asked of.
///
/// - A compatibility profile exists only below 3.2, where it is the legacy
///   profile; a request for the latest version counts as one for 2.1 there.
/// - An exact version below 3.2 is the legacy profile, and cannot be had with
///   the core profile; 3.2 is the 3.2 core profile; anything later is the
///   highest core profile.
/// - For the latest version the platform is probed, highest profile first.
pub open spec fn profile_choice(opengl: GlAttributes) -> Result<ProfileSearch, NegotiationError> {
    if opengl.profile == Some(GlProfile::Compatibility) {
        let version = match opengl.version.version_asked() {
            Some(v) => v,
            None => (2u8, 1u8),
        };
        if version_below(version, 3, 2) {
            Ok(ProfileSearch::Resolved(OpenGlProfile::Legacy))
        } else {
            Err(NegotiationError::VersionUnsupported)
        }
    } else {
        match opengl.version.version_asked() {
            Some(v) => if version_below(v, 3, 2) {
                if opengl.profile is None {
                    Ok(ProfileSearch::Resolved(OpenGlProfile::Legacy))
                } else {
                    Err(NegotiationError::VersionUnsupported)
                }
            } else if v == (3u8, 2u8) {
                Ok(ProfileSearch::Resolved(OpenGlProfile::Core32))
            } else {
                Ok(ProfileSearch::Resolved(OpenGlProfile::Core41))
            },
            None => Ok(ProfileSearch::Probe(OpenGlProfile::Core41)),
        }
    }
}

/// Chooses the profile, or the first profile to probe.
pub fn get_gl_profile(opengl: &GlAttributes) -> (choice: Result<ProfileSearch, NegotiationError>)
    ensures
        choice == profile_choice(*opengl),
{
    let version = opengl.version.requested_version();
    let compatibility = match opengl.profile {
        Some(GlProfile::Compatibility) => true,
        _ => false,
    };
    if compatibility {
        let v = match version {
            Some(v) => v,
            None => (2, 1),
        };
        if is_version_below(v, 3, 2) {
            Ok(ProfileSearch::Resolved(OpenGlProfile::Legacy))
        } else {
            Err(NegotiationError::VersionUnsupported)
        }
    } else if let Some(v) = version {
        if is_version_below(v, 3, 2) {
            if opengl.profile.is_none() {
                Ok(ProfileSearch::Resolved(OpenGlProfile::Legacy))
            } else {
                Err(NegotiationError::VersionUnsupported)
            }
        } else if v.0 == 3 && v.1 == 2 {
            Ok(ProfileSearch::Resolved(OpenGlProfile::Core32))
        } else {
            Ok(ProfileSearch::Resolved(OpenGlProfile::Core41))
        }
    } else {
        Ok(ProfileSearch::Probe(OpenGlProfile::Core41))
    }
}

/// Where the search goes once the platform has answered a probe: an accepted
/// profile is taken; after 4.1 comes 3.2; when no core profile is accepted
/// the legacy profile is taken without asking.
pub open spec fn after_probe(candidate: OpenGlProfile, accepted: bool) -> ProfileSearch {
    if accepted {
        ProfileSearch::Resolved(candidate)
    } else if candidate == OpenGlProfile::Core41 {
        ProfileSearch::Probe(OpenGlProfile::Core32)
    } else {
        ProfileSearch::Resolved(OpenGlProfile::Legacy)
    }
}

/// Decides [`after_probe`].
pub fn probe_answered(candidate: OpenGlProfile, accepted: bool) -> (next: ProfileSearch)
    ensures
        next == after_probe(candidate, accepted),
{
    if accepted {
        ProfileSearch::Resolved(candidate)
    } else {
        match candidate {
            OpenGlProfile::Core41 => ProfileSearch::Probe(OpenGlProfile::Core32),
            _ => ProfileSearch::Resolved(OpenGlProfile::Legacy),
        }
    }
}

/// The profile that probing ends with on a platform that accepts the 4.1 core
/// profile iff `accepts_41`, and the 3.2 core profile iff `accepts_32`.
pub open spec fn latest_profile(accepts_41: bool, accepts_32: bool) -> OpenGlProfile {
    if accepts_41 {
        OpenGlProfile::Core41
    } else if accepts_32 {
        OpenGlProfile::Core32
    } else {
        OpenGlProfile::Legacy
    }
}

/// Probing the latest version takes at most two questions, the newer profile
/// first, and ends with the newest profile that the platform accepts, or with
/// the legacy profile when it accepts neither.
pub proof fn lemma_probing_finds_latest(opengl: GlAttributes, accepts_41: bool, accepts_32: bool)
    requires
        opengl.version is Latest,
        opengl.profile != Some(GlProfile::Compatibility),
    ensures
        profile_choice(opengl) == Ok::<ProfileSearch, NegotiationError>(
            ProfileSearch::Probe(OpenGlProfile::Core41),
        ),
        match after_probe(OpenGlProfile::Core41, accepts_41) {
            ProfileSearch::Resolved(p) => p == latest_profile(accepts_41, accepts_32),
            ProfileSearch::Probe(second) => after_probe(second, accepts_32)
                == ProfileSearch::Resolved(latest_profile(accepts_41, accepts_32)),
        },
{
}

/// A request for version 3.2 that names no profile gets the 3.2 core
/// profile, never the legacy one, whichever API it names and without the
/// platform being asked.
pub proof fn lemma_version_3_2_is_core(opengl: GlAttributes, api: Api)
    requires
        opengl.version == GlRequest::Specific(api, (3u8, 2u8)),
        opengl.profile is None,
    ensures
        profile_choice(opengl) == Ok::<ProfileSearch, NegotiationError>(
            ProfileSearch::Resolved(OpenGlProfile::Core32),
        ),
{
}

/// A request for version 2.1 that names no profile gets the legacy profile,
/// never a core one, whichever API it names and without the platform being
/// asked.
pub proof fn lemma_version_2_1_is_legacy(opengl: GlAttributes, api: Api)
    requires
        opengl.version == GlRequest::Specific(api, (2u8, 1u8)),
        opengl.profile is None,
    ensures
        profile_choice(opengl) == Ok::<ProfileSearch, NegotiationError>(
            ProfileSearch::Resolved(OpenGlProfile::Legacy),
        ),
{
}

/// The compatibility profile is never granted for version 3.2 or later,
/// whichever API and whichever way the request names the version.
pub proof fn lemma_no_compatibility_from_3_2(opengl: GlAttributes, version: (u8, u8))
    requires
        opengl.version.version_asked() == Some(version),
        !version_below(version, 3, 2),
        opengl.profile == Some(GlProfile::Compatibility),
    ensures
        profile_choice(opengl) == Err::<ProfileSearch, NegotiationError>(
            NegotiationError::VersionUnsupported,
        ),
{
}

/// Only a request for the latest version has the platform asked; every
/// other request is decided by its version and its profile alone.
pub proof fn lemma_only_latest_is_probed(opengl: GlAttributes)
    ensures
        profile_choice(opengl) matches Ok(ProfileSearch::Probe(_)) <==> (opengl.version is Latest
            && opengl.profile != Some(GlProfile::Compatibility)),
{
}

/// The names that stand in a list only when the requirements ask for them.
pub open spec fn renderer_attributes(reqs: PixelFormatRequirements) -> Seq<u32> {
    (if reqs.hardware_accelerated == Some(true) {
        seq![PFA_ACCELERATED]
    } else {
        seq![]
    }) + (if reqs.double_buffer != Some(false) {
        seq![PFA_DOUBLE_BUFFER]
    } else {
        seq![]
    })
}

/// The smallest list that tells whether the platform has `candidate`:
/// offline renderers allowed, acceleration and double buffering as required,
/// the profile, and the terminating zero.
pub open spec fn probe_attributes(reqs: PixelFormatRequirements, candidate: OpenGlProfile) -> Seq<
    u32,
> {
    seq![PFA_ALLOW_OFFLINE_RENDERERS] + renderer_attributes(reqs) + seq![
        PFA_OPENGL_PROFILE,
        candidate.raw(),
        0u32,
    ]
}

/// Appends [`renderer_attributes`].
fn push_renderer_attributes(attributes: &mut Vec<u32>, reqs: &PixelFormatRequirements)
    ensures
        final(attributes)@ == old(attributes)@ + renderer_attributes(*reqs),
{
    if let Some(true) = reqs.hardware_accelerated {
        attributes.push(PFA_ACCELERATED);
    }
    let single = match reqs.double_buffer {
        Some(false) => true,
        _ => false,
    };
    if !single {
        attributes.push(PFA_DOUBLE_BUFFER);
    }
}

/// Builds [`probe_attributes`].
pub fn build_probe_attributes(reqs: &PixelFormatRequirements, candidate: OpenGlProfile) -> (list:
    Vec<u32>)
    ensures
        list@ == probe_attributes(*reqs, candidate),
{
    let mut attributes: Vec<u32> = Vec::new();
    attributes.push(PFA_ALLOW_OFFLINE_RENDERERS);
    push_renderer_attributes(&mut attributes, reqs);
    attributes.push(PFA_OPENGL_PROFILE);
    attributes.push(candidate.to_raw());
    attributes.push(0);
    attributes
}

/// Why no attribute list can be written for `reqs`, if so: the platform
/// cannot keep from flushing on release, and stereoscopy is not built. The
/// release behaviour is looked at first.
pub open spec fn attribute_refusal(reqs: PixelFormatRequirements) -> Option<NegotiationError> {
    if reqs.release_behavior != ReleaseBehavior::Flush {
        Some(NegotiationError::NoMatchingFormat)
    } else if reqs.stereoscopy {
        Some(NegotiationError::UnimplementedFeature(Feature::Stereoscopy))
    } else {
        None
    }
}

/// What the list says of multisampling: nothing where the sample count is
/// left open; no sample buffer where multisampling is switched off by a
/// count of 0; else multisampling, one sample buffer and the count.
pub open spec fn multisample_attributes(multisampling: Option<u16>) -> Seq<u32> {
    match multisampling {
        None => seq![],
        Some(samples) => if samples == 0 {
            seq![PFA_SAMPLE_BUFFERS, 0u32, PFA_SAMPLES, 0u32]
        } else {
            seq![PFA_MULTISAMPLE, PFA_SAMPLE_BUFFERS, 1u32, PFA_SAMPLES, samples as u32]
        },
    }
}

/// The attribute list that asks for `reqs` under `profile`, ended by a zero.
///
/// The platform counts alpha into the color size, so the color size asked for
/// is the sum of the two, and alpha is asked for again by itself. A depth
/// that the requirements leave open is asked for at its usual size.
pub open spec fn ns_attributes(reqs: PixelFormatRequirements, profile: OpenGlProfile) -> Seq<u32> {
    let alpha = depth_or(reqs.alpha_bits, 8);
    let color = depth_or(reqs.color_bits, 24) + alpha;
    seq![
        PFA_OPENGL_PROFILE,
        profile.raw(),
        PFA_CLOSEST_POLICY,
        PFA_COLOR_SIZE,
        color as u32,
        PFA_ALPHA_SIZE,
        alpha as u32,
        PFA_DEPTH_SIZE,
        depth_or(reqs.depth_bits, 24) as u32,
        PFA_STENCIL_SIZE,
        depth_or(reqs.stencil_bits, 8) as u32,
        PFA_ALLOW_OFFLINE_RENDERERS,
    ] + renderer_attributes(reqs) + (if reqs.float_color_buffer {
        seq![PFA_COLOR_FLOAT]
    } else {
        seq![]
    }) + multisample_attributes(reqs.multisampling) + seq![0u32]
}

/// Every list that is handed to the platform ends with a zero, and asks for
/// the profile that it was written for.
pub proof fn lemma_lists_end_with_zero(reqs: PixelFormatRequirements, profile: OpenGlProfile)
    ensures
        ns_attributes(reqs, profile).last() == 0,
        probe_attributes(reqs, profile).last() == 0,
        ns_attributes(reqs, profile)[0] == PFA_OPENGL_PROFILE,
        ns_attributes(reqs, profile)[1] == profile.raw(),
        probe_attributes(reqs, profile)[probe_attributes(reqs, profile).len() - 3]
            == PFA_OPENGL_PROFILE,
        probe_attributes(reqs, profile)[probe_attributes(reqs, profile).len() - 2]
            == profile.raw(),
{
}

/// Appends [`multisample_attributes`].
fn push_multisample_attributes(attributes: &mut Vec<u32>, multisampling: Option<u16>)
    ensures
        final(attributes)@ == old(attributes)@ + multisample_attributes(multisampling),
{
    if let Some(samples) = multisampling {
        if samples == 0 {
            attributes.push(PFA_SAMPLE_BUFFERS);
            attributes.push(0);
            attributes.push(PFA_SAMPLES);
            attributes.push(0);
        } else {
            attributes.push(PFA_MULTISAMPLE);
            attributes.push(PFA_SAMPLE_BUFFERS);
            attributes.push(1);
            attributes.push(PFA_SAMPLES);
            attributes.push(samples as u32);
        }
    }
}

/// Writes the attribute list for `pf_reqs` under `profile`, or says why
/// there is none.
pub fn build_nsattributes(pf_reqs: &PixelFormatRequirements, profile: OpenGlProfile) -> (list:
    Result<Vec<u32>, NegotiationError>)
    ensures
        match attribute_refusal(*pf_reqs) {
            Some(e) => list == Err::<Vec<u32>, NegotiationError>(e),
            None => list is Ok && list->Ok_0@ == ns_attributes(*pf_reqs, profile),
        },
{
    let alpha_depth = depth_or_else(pf_reqs.alpha_bits, 8);
    let color_depth: u32 = depth_or_else(pf_reqs.color_bits, 24) as u32 + alpha_depth as u32;
    let mut attributes: Vec<u32> = Vec::new();
    attributes.push(PFA_OPENGL_PROFILE);
    attributes.push(profile.to_raw());
    attributes.push(PFA_CLOSEST_POLICY);
    attributes.push(PFA_COLOR_SIZE);
    attributes.push(color_depth);
    attributes.push(PFA_ALPHA_SIZE);
    attributes.push(alpha_depth as u32);
    attributes.push(PFA_DEPTH_SIZE);
    attributes.push(depth_or_else(pf_reqs.depth_bits, 24) as u32);
    attributes.push(PFA_STENCIL_SIZE);
    attributes.push(depth_or_else(pf_reqs.stencil_bits, 8) as u32);
    attributes.push(PFA_ALLOW_OFFLINE_RENDERERS);
    push_renderer_attributes(&mut attributes, pf_reqs);
    match pf_reqs.release_behavior {
        ReleaseBehavior::Flush => {},
        _ => {
            return Err(NegotiationError::NoMatchingFormat);
        },
    }
    if pf_reqs.stereoscopy {
        return Err(NegotiationError::UnimplementedFeature(Feature::Stereoscopy));
    }
    if pf_reqs.float_color_buffer {
        attributes.push(PFA_COLOR_FLOAT);
    }
    push_multisample_attributes(&mut attributes, pf_reqs.multisampling);
    attributes.push(0);
    assert(attributes@ =~= ns_attributes(*pf_reqs, profile));
    Ok(attributes)
}

/// What to ask of the platform next while a context is made.
#[derive(Debug)]
pub enum CglStep {
    /// Ask for a pixel format with `attributes` and release it again: does
    /// the platform have `candidate`?
    Probe { candidate: OpenGlProfile, attributes: Vec<u32> },
    /// Ask for the pixel format with `attributes` and create the context
    /// with it.
    Create { attributes: Vec<u32> },
    /// Give up: the request cannot be met.
    Fail(NegotiationError),
}

/// A step without the attribute list that it carries.
pub enum CglPlan {
    /// Probe this profile.
    Probe(OpenGlProfile),
    /// Create the context under this profile.
    Create(OpenGlProfile),
    /// Give up.
    Fail(NegotiationError),
}

impl CglStep {
    /// The step is `plan`, with the attribute list that `reqs` gives it.
    pub open spec fn carries(self, reqs: PixelFormatRequirements, plan: CglPlan) -> bool {
        match plan {
            CglPlan::Probe(c) => self matches CglStep::Probe { candidate, attributes }
                && candidate == c && attributes@ == probe_attributes(reqs, c),
            CglPlan::Create(p) => self matches CglStep::Create { attributes } && attributes@
                == ns_attributes(reqs, p),
            CglPlan::Fail(e) => self matches CglStep::Fail(f) && f == e,
        }
    }
}

/// The step that follows once `search` has come this far: a resolved profile
/// is created, unless no attribute list can be written for `reqs`.
pub open spec fn plan_for(reqs: PixelFormatRequirements, search: ProfileSearch) -> CglPlan {
    match search {
        ProfileSearch::Probe(candidate) => CglPlan::Probe(candidate),
        ProfileSearch::Resolved(profile) => match attribute_refusal(reqs) {
            Some(e) => CglPlan::Fail(e),
            None => CglPlan::Create(profile),
        },
    }
}

/// The first step. A robustness that the caller depends on is refused before
/// anything else is looked at: the platform has none.
pub open spec fn first_plan(reqs: PixelFormatRequirements, attrs: GlAttributes) -> CglPlan {
    if attrs.robustness.is_mandatory() {
        CglPlan::Fail(NegotiationError::RobustnessUnsupported)
    } else {
        match profile_choice(attrs) {
            Err(e) => CglPlan::Fail(e),
            Ok(search) => plan_for(reqs, search),
        }
    }
}

/// Turns a state of the search into the step to take.
fn step_for(pf_reqs: &PixelFormatRequirements, search: ProfileSearch) -> (step: CglStep)
    ensures
        step.carries(*pf_reqs, plan_for(*pf_reqs, search)),
{
    match search {
        ProfileSearch::Probe(candidate) => CglStep::Probe {
            candidate,
            attributes: build_probe_attributes(pf_reqs, candidate),
        },
        ProfileSearch::Resolved(profile) => match build_nsattributes(pf_reqs, profile) {
            Ok(attributes) => CglStep::Create { attributes },
            Err(e) => CglStep::Fail(e),
        },
    }
}

/// Begins making a context that meets `pf_reqs` and `gl_attr`: says what to
/// ask of the platform first.
pub fn create_gl_context(pf_reqs: &PixelFormatRequirements, gl_attr: &GlAttributes) -> (step:
    CglStep)
    ensures
        step.carries(*pf_reqs, first_plan(*pf_reqs, *gl_attr)),
{
    if gl_attr.robustness.mandatory() {
        return CglStep::Fail(NegotiationError::RobustnessUnsupported);
    }
    match get_gl_profile(gl_attr) {
        Err(e) => CglStep::Fail(e),
        Ok(search) => step_for(pf_reqs, search),
    }
}

/// Goes on once the platform has answered the probe of `candidate`.
pub fn continue_after_probe(
    pf_reqs: &PixelFormatRequirements,
    candidate: OpenGlProfile,
    accepted: bool,
) -> (step: CglStep)
    ensures
        step.carries(*pf_reqs, plan_for(*pf_reqs, after_probe(candidate, accepted))),
{
    step_for(pf_reqs, probe_answered(candidate, accepted))
}

/// What the platform reports of the format that it granted, attribute by
/// attribute.
#[derive(Debug, Clone, Copy, PartialEq, Eq, Structural)]
pub struct CglFormatValues {
    pub accelerated: i32,
    /// Bits of the color buffer, alpha included.
    pub color_size: i32,
    pub alpha_size: i32,
    pub depth_size: i32,
    pub stencil_size: i32,
    pub stereo: i32,
    pub double_buffer: i32,
    pub multisample: i32,
    pub samples: i32,
}

/// The low eight bits of `value`.
pub open spec fn low_byte(value: int) -> u8 {
    (value % 256) as u8
}

/// The low sixteen bits of `value`.
pub open spec fn low_word(value: int) -> u16 {
    (value % 65536) as u16
}

/// Computes [`low_byte`].
fn low_byte_of(value: i64) -> (b: u8)
    requires
        -0x1_0000_0000 <= value <= 0x1_0000_0000,
    ensures
        b == low_byte(value as int),
{
    let shifted: i64 = value + 0x1_0000_0000;
    (shifted % 256) as u8
}

/// Computes [`low_word`].
fn low_word_of(value: i64) -> (w: u16)
    requires
        -0x1_0000_0000 <= value <= 0x1_0000_0000,
    ensures
        w == low_word(value as int),
{
    let shifted: i64 = value + 0x1_0000_0000;
    (shifted % 65536) as u16
}

/// The format that the reported values describe. The color size that the
/// platform reports includes alpha, which is taken off again. There is a
/// sample count only where the format multisamples and has samples. A format
/// of this platform is always sRGB capable.
pub open spec fn granted_format(values: CglFormatValues) -> PixelFormat {
    PixelFormat {
        hardware_accelerated: values.accelerated != 0,
        color_bits: low_byte(values.color_size - values.alpha_size),
        alpha_bits: low_byte(values.alpha_size as int),
        depth_bits: low_byte(values.depth_size as int),
        stencil_bits: low_byte(values.stencil_size as int),
        stereoscopy: values.stereo != 0,
        double_buffer: values.double_buffer != 0,
        multisampling: if values.multisample > 0 && values.samples != 0 {
            Some(low_word(values.samples as int))
        } else {
            None
        },
        srgb: true,
    }
}

/// Builds [`granted_format`].
pub fn pixel_format_from_values(values: &CglFormatValues) -> (format: PixelFormat)
    ensures
        format == granted_format(*values),
{
    PixelFormat {
        hardware_accelerated: values.accelerated != 0,
        color_bits: low_byte_of(values.color_size as i64 - values.alpha_size as i64),
        alpha_bits: low_byte_of(values.alpha_size as i64),
        depth_bits: low_byte_of(values.depth_size as i64),
        stencil_bits: low_byte_of(values.stencil_size as i64),
        stereoscopy: values.stereo != 0,
        double_buffer: values.double_buffer != 0,
        multisampling: if values.multisample > 0 && values.samples != 0 {
            Some(low_word_of(values.samples as i64))
        } else {
            None
        },
        srgb: true,
    }
}

/// How the platform answered a [`CglStep::Create`].
#[derive(Debug, Clone, Copy, PartialEq, Eq, Structural)]
pub enum CreateOutcome {
    /// It has no pixel format for the attribute list.
    FormatUnavailable,
    /// It has the format, but made no context.
    ContextUnavailable,
    /// It made the context; these are the attributes of the format.
    Created(CglFormatValues),
}

/// How to set up a context that was made.
#[derive(Debug, Clone, Copy, PartialEq, Eq, Structural)]
pub struct CglSetup {
    /// The format of the context, as the platform reports it.
    pub pixel_format: PixelFormat,
    /// The swap interval to set: 1 to wait for the display, 0 not to.
    pub swap_interval: i32,
}

/// What comes of a [`CglStep::Create`]. The format is read back from the
/// platform, never taken from the request, and a format that falls below a
/// required depth is no result.
pub open spec fn creation_result(
    reqs: PixelFormatRequirements,
    attrs: GlAttributes,
    outcome: CreateOutcome,
) -> Result<CglSetup, ContextError> {
    match outcome {
        CreateOutcome::FormatUnavailable => Err(
            ContextError::Negotiation(NegotiationError::NoMatchingFormat),
        ),
        CreateOutcome::ContextUnavailable => Err(
            ContextError::Creation(CreationError { call: NativeCall::CreateContext, code: 0 }),
        ),
        CreateOutcome::Created(values) => if granted_format(values).meets_depths(reqs) {
            Ok(
                CglSetup {
                    pixel_format: granted_format(values),
                    swap_interval: if attrs.vsync {
                        1i32
                    } else {
                        0i32
                    },
                },
            )
        } else {
            Err(ContextError::Negotiation(NegotiationError::NoMatchingFormat))
        },
    }
}

/// Ends the making of a context: says how to set it up, or why there is none.
pub fn finish_gl_context(
    pf_reqs: &PixelFormatRequirements,
    gl_attr: &GlAttributes,
    outcome: CreateOutcome,
) -> (result: Result<CglSetup, ContextError>)
    ensures
        result == creation_result(*pf_reqs, *gl_attr, outcome),
        result matches Ok(setup) ==> setup.pixel_format.meets_depths(*pf_reqs),
{
    match outcome {
        CreateOutcome::FormatUnavailable => Err(
            ContextError::Negotiation(NegotiationError::NoMatchingFormat),
        ),
        CreateOutcome::ContextUnavailable => Err(
            ContextError::Creation(CreationError { call: NativeCall::CreateContext, code: 0 }),
        ),
        CreateOutcome::Created(values) => {
            let pixel_format = pixel_format_from_values(&values);
            if pixel_format.satisfies_depths(pf_reqs) {
                let swap_interval: i32 = if gl_attr.vsync {
                    1
                } else {
                    0
                };
                Ok(CglSetup { pixel_format, swap_interval })
            } else {
                Err(ContextError::Negotiation(NegotiationError::NoMatchingFormat))
            }
        },
    }
}

} // verus!
