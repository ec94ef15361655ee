use druid_shell::error::NegotiationError;
use druid_shell::gl::{
    Api, GlAttributes, GlProfile, GlRequest, PixelFormat, PixelFormatRequirements,
    ReleaseBehavior, Robustness,
};
use druid_shell::wgl::{
    arb_chosen_format, arb_refuses, choose_arb_pixel_format, choose_arb_pixel_format_id,
    choose_dummy_pixel_format, choose_native_pixel_format, choose_native_pixel_format_id,
    context_refused, create_context, native_chosen_format, native_refuses, swap_interval,
    ArbChoice, ArbFormatValues, ContextRequest, PixelFormatDescriptor, WglExtensions,
};

fn all_extensions() -> WglExtensions {
    WglExtensions {
        create_context: true,
        create_context_profile: true,
        create_context_robustness: true,
        create_context_es2_profile: true,
        context_flush_control: true,
        framebuffer_srgb_arb: true,
        framebuffer_srgb_ext: true,
        multisample: true,
        pixel_format: true,
        pixel_format_float: true,
        swap_control: true,
    }
}

fn plain_requirements() -> PixelFormatRequirements {
    PixelFormatRequirements { srgb: false, ..PixelFormatRequirements::default() }
}

fn only_depth_and_alpha() -> PixelFormatRequirements {
    PixelFormatRequirements {
        hardware_accelerated: None,
        color_bits: None,
        float_color_buffer: false,
        alpha_bits: Some(8),
        depth_bits: Some(24),
        stencil_bits: None,
        double_buffer: None,
        multisampling: None,
        stereoscopy: false,
        srgb: false,
        release_behavior: ReleaseBehavior::Flush,
        x11_visual_xid: None,
    }
}

fn arb_values() -> ArbFormatValues {
    ArbFormatValues {
        acceleration: 0x2027,
        red_bits: 8,
        green_bits: 8,
        blue_bits: 8,
        alpha_bits: 8,
        depth_bits: 24,
        stencil_bits: 8,
        stereo: 0,
        double_buffer: 1,
        samples: 4,
        srgb_capable: 1,
    }
}

fn descriptor() -> PixelFormatDescriptor {
    PixelFormatDescriptor {
        version: 1,
        flags: 0x4 | 0x20 | 0x1,
        pixel_type: 0,
        color_bits: 32,
        red_bits: 8,
        green_bits: 8,
        blue_bits: 8,
        alpha_bits: 8,
        depth_bits: 24,
        stencil_bits: 8,
        layer_type: 0,
    }
}

fn list_of(request: Result<ContextRequest, NegotiationError>) -> Vec<i32> {
    match request {
        Ok(ContextRequest::Attributes(list)) => list,
        other => panic!("no attribute list: {:?}", other),
    }
}

#[test]
fn arb_list_for_default_requirements() {
    let ext = WglExtensions { framebuffer_srgb_arb: true, ..WglExtensions::no_extensions() };
    let list = choose_arb_pixel_format_id(&ext, &PixelFormatRequirements::default());
    assert_eq!(
        list,
        Ok(vec![
            0x2001, 1, 0x2010, 1, 0x2013, 0x202B, 0x2003, 0x2027, 0x2014, 24, 0x201B, 8, 0x2022,
            24, 0x2023, 8, 0x2011, 1, 0x2012, 0, 0x20A9, 1, 0
        ])
    );
}

#[test]
fn arb_list_with_everything_asked_for() {
    let reqs = PixelFormatRequirements {
        hardware_accelerated: Some(false),
        color_bits: Some(30),
        float_color_buffer: true,
        alpha_bits: Some(2),
        depth_bits: Some(32),
        stencil_bits: Some(0),
        double_buffer: Some(false),
        multisampling: Some(8),
        stereoscopy: true,
        srgb: false,
        release_behavior: ReleaseBehavior::NoFlush,
        x11_visual_xid: None,
    };
    let list = choose_arb_pixel_format_id(&all_extensions(), &reqs);
    assert_eq!(
        list,
        Ok(vec![
            0x2001, 1, 0x2010, 1, 0x2013, 0x21A0, 0x2003, 0x2025, 0x2014, 30, 0x201B, 2, 0x2022,
            32, 0x2023, 0, 0x2011, 0, 0x2041, 1, 0x2042, 8, 0x2012, 1, 0x20A9, 0, 0x2097, 0, 0
        ])
    );
}

#[test]
fn arb_list_leaves_out_what_is_not_cared_for() {
    let reqs = PixelFormatRequirements {
        hardware_accelerated: None,
        color_bits: None,
        alpha_bits: None,
        depth_bits: None,
        stencil_bits: None,
        srgb: false,
        ..PixelFormatRequirements::default()
    };
    let list = choose_arb_pixel_format_id(&WglExtensions::no_extensions(), &reqs);
    assert_eq!(list, Ok(vec![0x2001, 1, 0x2010, 1, 0x2013, 0x202B, 0x2011, 1, 0x2012, 0, 0]));
}

#[test]
fn arb_list_names_srgb_as_the_driver_does() {
    let ext = WglExtensions { framebuffer_srgb_ext: true, ..WglExtensions::no_extensions() };
    let list = choose_arb_pixel_format_id(&ext, &PixelFormatRequirements::default()).unwrap();
    assert_eq!(&list[list.len() - 3..], &[0x20A9, 1, 0]);
}

#[test]
fn arb_list_with_multisampling_switched_off() {
    let reqs = PixelFormatRequirements { multisampling: Some(0), ..plain_requirements() };
    let ext = WglExtensions { multisample: true, ..WglExtensions::no_extensions() };
    let list = choose_arb_pixel_format_id(&ext, &reqs).unwrap();
    assert_eq!(&list[18..22], &[0x2041, 0, 0x2042, 0]);
}

#[test]
fn arb_refuses_what_the_driver_cannot_be_told() {
    let none = WglExtensions::no_extensions();
    let float = PixelFormatRequirements { float_color_buffer: true, ..plain_requirements() };
    let sampled = PixelFormatRequirements { multisampling: Some(0), ..plain_requirements() };
    let srgb = PixelFormatRequirements::default();
    let unflushed = PixelFormatRequirements {
        release_behavior: ReleaseBehavior::NoFlush,
        ..plain_requirements()
    };
    for reqs in [float, sampled, srgb, unflushed] {
        assert!(arb_refuses(&none, &reqs));
        assert_eq!(
            choose_arb_pixel_format_id(&none, &reqs),
            Err(NegotiationError::NoMatchingFormat)
        );
        assert!(!arb_refuses(&all_extensions(), &reqs));
    }
    assert!(!arb_refuses(&none, &plain_requirements()));
}

#[test]
fn arb_choice_needs_success_and_a_format() {
    let found = ArbChoice { succeeded: true, format_id: 7, num_formats: 1 };
    assert_eq!(arb_chosen_format(found), Ok(7));
    let failed = ArbChoice { succeeded: false, format_id: 7, num_formats: 1 };
    assert_eq!(arb_chosen_format(failed), Err(NegotiationError::NoMatchingFormat));
    let none = ArbChoice { succeeded: true, format_id: 7, num_formats: 0 };
    assert_eq!(arb_chosen_format(none), Err(NegotiationError::NoMatchingFormat));
}

#[test]
fn native_choice_of_zero_is_no_format() {
    assert_eq!(native_chosen_format(3), Ok(3));
    assert_eq!(native_chosen_format(0), Err(NegotiationError::NoMatchingFormat));
}

#[test]
fn dummy_descriptor_values() {
    assert_eq!(
        choose_dummy_pixel_format(),
        PixelFormatDescriptor {
            version: 1,
            flags: 0x25,
            pixel_type: 0,
            color_bits: 24,
            red_bits: 0,
            green_bits: 0,
            blue_bits: 0,
            alpha_bits: 8,
            depth_bits: 24,
            stencil_bits: 8,
            layer_type: 0,
        }
    );
}

#[test]
fn native_descriptor_for_plain_requirements() {
    let wanted = choose_native_pixel_format_id(&plain_requirements());
    assert_eq!(
        wanted,
        Ok(PixelFormatDescriptor {
            version: 1,
            flags: 0x25,
            pixel_type: 0,
            color_bits: 24,
            red_bits: 0,
            green_bits: 0,
            blue_bits: 0,
            alpha_bits: 8,
            depth_bits: 24,
            stencil_bits: 8,
            layer_type: 0,
        })
    );
}

#[test]
fn native_descriptor_single_buffered_and_open_depths() {
    let reqs = PixelFormatRequirements {
        color_bits: None,
        alpha_bits: None,
        depth_bits: None,
        stencil_bits: None,
        double_buffer: Some(false),
        ..plain_requirements()
    };
    let wanted = choose_native_pixel_format_id(&reqs).unwrap();
    assert_eq!(wanted.flags, 0x24);
    assert_eq!(wanted.color_bits, 0);
    assert_eq!(wanted.alpha_bits, 0);
    assert_eq!(wanted.depth_bits, 0);
    assert_eq!(wanted.stencil_bits, 0);
}

#[test]
fn native_refuses_what_a_descriptor_cannot_say() {
    let float = PixelFormatRequirements { float_color_buffer: true, ..plain_requirements() };
    let sampled = PixelFormatRequirements { multisampling: Some(2), ..plain_requirements() };
    let stereo = PixelFormatRequirements { stereoscopy: true, ..plain_requirements() };
    let srgb = PixelFormatRequirements::default();
    let unflushed = PixelFormatRequirements {
        release_behavior: ReleaseBehavior::NoFlush,
        ..plain_requirements()
    };
    for reqs in [float, sampled, stereo, srgb, unflushed] {
        assert!(native_refuses(&reqs));
        assert_eq!(choose_native_pixel_format_id(&reqs), Err(NegotiationError::NoMatchingFormat));
    }
    let unsampled = PixelFormatRequirements { multisampling: Some(0), ..plain_requirements() };
    assert!(!native_refuses(&unsampled));
}

#[test]
fn native_format_is_read_from_the_descriptor() {
    let format = choose_native_pixel_format(Some(descriptor()), &plain_requirements());
    assert_eq!(
        format,
        Ok(PixelFormat {
            hardware_accelerated: true,
            color_bits: 24,
            alpha_bits: 8,
            depth_bits: 24,
            stencil_bits: 8,
            stereoscopy: false,
            double_buffer: true,
            multisampling: None,
            srgb: false,
        })
    );
}

#[test]
fn native_format_keeps_depth_and_alpha_lower_bounds() {
    let reqs = only_depth_and_alpha();
    let format = choose_native_pixel_format(Some(descriptor()), &reqs).unwrap();
    assert!(format.depth_bits >= 24);
    assert!(format.alpha_bits >= 8);
    let shallow = PixelFormatDescriptor { depth_bits: 16, ..descriptor() };
    assert_eq!(
        choose_native_pixel_format(Some(shallow), &reqs),
        Err(NegotiationError::NoMatchingFormat)
    );
    let opaque = PixelFormatDescriptor { alpha_bits: 0, ..descriptor() };
    assert_eq!(
        choose_native_pixel_format(Some(opaque), &reqs),
        Err(NegotiationError::NoMatchingFormat)
    );
}

#[test]
fn native_format_must_conform() {
    let reqs = only_depth_and_alpha();
    let no_window = PixelFormatDescriptor { flags: 0x20 | 0x1, ..descriptor() };
    let no_opengl = PixelFormatDescriptor { flags: 0x4 | 0x1, ..descriptor() };
    let indexed = PixelFormatDescriptor { pixel_type: 1, ..descriptor() };
    let overflowing =
        PixelFormatDescriptor { red_bits: 128, green_bits: 128, blue_bits: 128, ..descriptor() };
    for d in [no_window, no_opengl, indexed, overflowing] {
        assert_eq!(
            choose_native_pixel_format(Some(d), &reqs),
            Err(NegotiationError::NoMatchingFormat)
        );
    }
    assert_eq!(choose_native_pixel_format(None, &reqs), Err(NegotiationError::NoMatchingFormat));
}

#[test]
fn native_format_checks_acceleration_and_buffering() {
    let software = PixelFormatDescriptor { flags: 0x4 | 0x20 | 0x1 | 0x40, ..descriptor() };
    assert_eq!(
        choose_native_pixel_format(Some(software), &plain_requirements()),
        Err(NegotiationError::NoMatchingFormat)
    );
    let wants_software =
        PixelFormatRequirements { hardware_accelerated: Some(false), ..plain_requirements() };
    let format = choose_native_pixel_format(Some(software), &wants_software).unwrap();
    assert!(!format.hardware_accelerated);
    let single = PixelFormatDescriptor { flags: 0x4 | 0x20, ..descriptor() };
    let wants_double = PixelFormatRequirements { double_buffer: Some(true), ..plain_requirements() };
    assert_eq!(
        choose_native_pixel_format(Some(single), &wants_double),
        Err(NegotiationError::NoMatchingFormat)
    );
    let any_buffering = PixelFormatRequirements { double_buffer: None, ..plain_requirements() };
    let format = choose_native_pixel_format(Some(single), &any_buffering).unwrap();
    assert!(!format.double_buffer);
    let wants_single = PixelFormatRequirements { double_buffer: Some(false), ..plain_requirements() };
    assert_eq!(
        choose_native_pixel_format(Some(descriptor()), &wants_single),
        Err(NegotiationError::NoMatchingFormat)
    );
    assert_eq!(
        choose_native_pixel_format(Some(single), &plain_requirements()),
        Err(NegotiationError::NoMatchingFormat)
    );
    let stereo = PixelFormatDescriptor { flags: 0x4 | 0x20 | 0x2, ..descriptor() };
    let format = choose_native_pixel_format(Some(stereo), &any_buffering).unwrap();
    assert!(format.stereoscopy);
}

#[test]
fn arb_format_is_read_from_the_values() {
    let format =
        choose_arb_pixel_format(&all_extensions(), &arb_values(), &PixelFormatRequirements::default());
    assert_eq!(
        format,
        Ok(PixelFormat {
            hardware_accelerated: true,
            color_bits: 24,
            alpha_bits: 8,
            depth_bits: 24,
            stencil_bits: 8,
            stereoscopy: false,
            double_buffer: true,
            multisampling: Some(4),
            srgb: true,
        })
    );
}

#[test]
fn arb_format_reads_samples_and_srgb_only_where_known() {
    let reqs = plain_requirements();
    let format = choose_arb_pixel_format(&WglExtensions::no_extensions(), &arb_values(), &reqs);
    let format = format.unwrap();
    assert_eq!(format.multisampling, None);
    assert!(!format.srgb);
    let ext = WglExtensions { framebuffer_srgb_ext: true, ..WglExtensions::no_extensions() };
    assert!(choose_arb_pixel_format(&ext, &arb_values(), &reqs).unwrap().srgb);
    let unsampled = ArbFormatValues { samples: 0, srgb_capable: 0, ..arb_values() };
    let format = choose_arb_pixel_format(&all_extensions(), &unsampled, &reqs).unwrap();
    assert_eq!(format.multisampling, None);
    assert!(!format.srgb);
    let software = ArbFormatValues { acceleration: 0x2025, ..arb_values() };
    assert!(!choose_arb_pixel_format(&all_extensions(), &software, &reqs).unwrap().hardware_accelerated);
}

#[test]
fn arb_format_keeps_depth_and_alpha_lower_bounds() {
    let reqs = only_depth_and_alpha();
    let format = choose_arb_pixel_format(&all_extensions(), &arb_values(), &reqs).unwrap();
    assert!(format.depth_bits >= 24);
    assert!(format.alpha_bits >= 8);
    let shallow = ArbFormatValues { depth_bits: 16, ..arb_values() };
    assert_eq!(
        choose_arb_pixel_format(&all_extensions(), &shallow, &reqs),
        Err(NegotiationError::NoMatchingFormat)
    );
    let opaque = ArbFormatValues { alpha_bits: 0, ..arb_values() };
    assert_eq!(
        choose_arb_pixel_format(&all_extensions(), &opaque, &reqs),
        Err(NegotiationError::NoMatchingFormat)
    );
    let overflowing = ArbFormatValues { red_bits: 100, green_bits: 100, blue_bits: 100, ..arb_values() };
    assert_eq!(
        choose_arb_pixel_format(&all_extensions(), &overflowing, &reqs),
        Err(NegotiationError::NoMatchingFormat)
    );
}

#[test]
fn context_without_wishes_is_basic() {
    assert!(matches!(create_context(None), Ok(ContextRequest::Basic)));
}

#[test]
fn context_without_the_extension_is_basic() {
    let ext = WglExtensions { create_context: false, ..all_extensions() };
    let opengl = GlAttributes {
        version: GlRequest::Specific(Api::OpenGl, (4, 5)),
        profile: Some(GlProfile::Core),
        ..GlAttributes::default()
    };
    assert!(matches!(create_context(Some((&ext, &opengl))), Ok(ContextRequest::Basic)));
}

#[test]
fn context_list_for_latest() {
    let list = list_of(create_context(Some((&all_extensions(), &GlAttributes::default()))));
    assert_eq!(list, vec![0x2094, 0, 0]);
}

#[test]
fn context_list_with_version_profile_robustness_and_debug() {
    let opengl = GlAttributes {
        version: GlRequest::Specific(Api::OpenGl, (3, 3)),
        profile: Some(GlProfile::Core),
        debug: true,
        robustness: Robustness::TryRobustLoseContextOnReset,
        vsync: false,
    };
    let list = list_of(create_context(Some((&all_extensions(), &opengl))));
    assert_eq!(list, vec![0x2091, 3, 0x2092, 3, 0x9126, 1, 0x8256, 0x8252, 0x2094, 5, 0]);
}

#[test]
fn context_list_for_opengl_es_and_compatibility() {
    let opengl = GlAttributes {
        version: GlRequest::Specific(Api::OpenGlEs, (2, 0)),
        profile: Some(GlProfile::Compatibility),
        robustness: Robustness::RobustNoResetNotification,
        ..GlAttributes::default()
    };
    let list = list_of(create_context(Some((&all_extensions(), &opengl))));
    assert_eq!(
        list,
        vec![0x9126, 4, 0x2091, 2, 0x2092, 0, 0x9126, 2, 0x8256, 0x8261, 0x2094, 4, 0]
    );
}

#[test]
fn context_list_for_gl_then_gles() {
    let opengl = GlAttributes {
        version: GlRequest::GlThenGles { opengl_version: (4, 1), opengles_version: (3, 0) },
        debug: true,
        ..GlAttributes::default()
    };
    let list = list_of(create_context(Some((&all_extensions(), &opengl))));
    assert_eq!(list, vec![0x2091, 4, 0x2092, 1, 0x2094, 1, 0]);
}

#[test]
fn optional_robustness_is_dropped_without_the_extension() {
    let ext = WglExtensions { create_context_robustness: false, ..all_extensions() };
    let opengl = GlAttributes {
        robustness: Robustness::TryRobustNoResetNotification,
        ..GlAttributes::default()
    };
    assert_eq!(list_of(create_context(Some((&ext, &opengl)))), vec![0x2094, 0, 0]);
}

#[test]
fn mandatory_robustness_needs_the_extension() {
    let opengl = GlAttributes {
        version: GlRequest::Specific(Api::WebGl, (1, 0)),
        profile: Some(GlProfile::Core),
        robustness: Robustness::RobustLoseContextOnReset,
        ..GlAttributes::default()
    };
    let ext = WglExtensions {
        create_context_robustness: false,
        create_context_profile: false,
        ..all_extensions()
    };
    assert_eq!(context_refused(&ext, &opengl), Some(NegotiationError::RobustnessUnsupported));
    assert!(matches!(
        create_context(Some((&ext, &opengl))),
        Err(NegotiationError::RobustnessUnsupported)
    ));
    let basic = WglExtensions { create_context: false, ..all_extensions() };
    assert_eq!(context_refused(&basic, &opengl), Some(NegotiationError::RobustnessUnsupported));
}

#[test]
fn unsupported_versions_are_refused() {
    let webgl =
        GlAttributes { version: GlRequest::Specific(Api::WebGl, (1, 0)), ..GlAttributes::default() };
    assert_eq!(
        context_refused(&all_extensions(), &webgl),
        Some(NegotiationError::VersionUnsupported)
    );
    let es = GlAttributes {
        version: GlRequest::Specific(Api::OpenGlEs, (2, 0)),
        profile: Some(GlProfile::Core),
        ..GlAttributes::default()
    };
    let ext = WglExtensions {
        create_context_es2_profile: false,
        create_context_profile: false,
        ..all_extensions()
    };
    assert_eq!(context_refused(&ext, &es), Some(NegotiationError::VersionUnsupported));
    assert!(matches!(create_context(Some((&ext, &es))), Err(NegotiationError::VersionUnsupported)));
}

#[test]
fn a_profile_needs_the_profile_extension() {
    let opengl = GlAttributes { profile: Some(GlProfile::Core), ..GlAttributes::default() };
    let ext = WglExtensions { create_context_profile: false, ..all_extensions() };
    assert_eq!(context_refused(&ext, &opengl), Some(NegotiationError::ProfileUnsupported));
    assert!(matches!(
        create_context(Some((&ext, &opengl))),
        Err(NegotiationError::ProfileUnsupported)
    ));
    assert_eq!(context_refused(&all_extensions(), &opengl), None);
}

#[test]
fn swap_interval_follows_vsync() {
    let on = GlAttributes { vsync: true, ..GlAttributes::default() };
    assert_eq!(swap_interval(&all_extensions(), &on), Some(1));
    assert_eq!(swap_interval(&all_extensions(), &GlAttributes::default()), Some(0));
    assert_eq!(swap_interval(&WglExtensions::no_extensions(), &on), None);
}
