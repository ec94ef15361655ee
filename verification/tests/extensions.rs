use druid_shell::extensions::{has_extension, token_listed};
use druid_shell::wgl::{ExtensionSource, WglExtensions, extension_source};

fn by_split(extensions: &str, name: &str) -> bool {
    extensions.split(' ').any(|i| i == name)
}

#[test]
fn finds_a_listed_extension() {
    let list = "WGL_ARB_pixel_format WGL_EXT_swap_control WGL_ARB_create_context";
    assert!(has_extension(list, "WGL_ARB_pixel_format"));
    assert!(has_extension(list, "WGL_EXT_swap_control"));
    assert!(has_extension(list, "WGL_ARB_create_context"));
}

#[test]
fn a_prefix_of_a_name_is_not_listed() {
    let list = "WGL_ARB_pixel_format_float WGL_ARB_create_context_profile";
    assert!(!has_extension(list, "WGL_ARB_pixel_format"));
    assert!(!has_extension(list, "WGL_ARB_create_context"));
    assert!(!has_extension(list, "float"));
}

#[test]
fn nothing_is_listed_in_an_empty_string_but_the_empty_name() {
    assert!(!has_extension("", "WGL_ARB_pixel_format"));
    assert!(has_extension("", ""));
}

#[test]
fn empty_names_stand_between_and_after_separators() {
    assert!(!has_extension("a b", ""));
    assert!(has_extension("a  b", ""));
    assert!(has_extension("a b ", ""));
    assert!(has_extension(" a b", ""));
}

#[test]
fn a_name_with_a_separator_is_never_listed() {
    assert!(!has_extension("a b", "a b"));
    assert!(!has_extension("a b", "a "));
}

#[test]
fn agrees_with_splitting_at_spaces() {
    let lists = ["", " ", "a", "a b", "a  b", " a", "a ", "ab a", "b ab", "abc ab a", "é ö", "a\tb"];
    let names = ["", "a", "b", "ab", "abc", " ", "a b", "é", "ö", "a\tb"];
    for list in lists {
        for name in names {
            assert_eq!(has_extension(list, name), by_split(list, name), "{:?} in {:?}", name, list);
        }
    }
}

#[test]
fn token_listed_works_on_bytes() {
    assert!(token_listed(b"one two three", b"two"));
    assert!(!token_listed(b"one two three", b"tw"));
    assert!(token_listed(b"one", b"one"));
}

#[test]
fn parse_reads_every_known_extension() {
    let all = "WGL_ARB_create_context WGL_ARB_create_context_profile \
               WGL_ARB_create_context_robustness WGL_EXT_create_context_es2_profile \
               WGL_ARB_context_flush_control WGL_ARB_framebuffer_sRGB WGL_EXT_framebuffer_sRGB \
               WGL_ARB_multisample WGL_ARB_pixel_format WGL_ARB_pixel_format_float \
               WGL_EXT_swap_control";
    let found = WglExtensions::parse(all);
    assert_eq!(
        found,
        WglExtensions {
            create_context: true,
            create_context_profile: true,
            create_context_robustness: true,
            create_context_es2_profile: true,
            context_flush_control: true,
            framebuffer_srgb_arb: true,
            framebuffer_srgb_ext: true,
            multisample: true,
            pixel_format: true,
            pixel_format_float: true,
            swap_control: true,
        }
    );
}

#[test]
fn parse_tells_extensions_apart() {
    let found = WglExtensions::parse("WGL_ARB_pixel_format_float WGL_EXT_framebuffer_sRGB");
    assert_eq!(
        found,
        WglExtensions {
            pixel_format_float: true,
            framebuffer_srgb_ext: true,
            ..WglExtensions::no_extensions()
        }
    );
}

#[test]
fn parse_of_an_empty_string_allows_nothing() {
    assert_eq!(WglExtensions::parse(""), WglExtensions::no_extensions());
    assert!(!WglExtensions::no_extensions().pixel_format);
    assert!(!WglExtensions::no_extensions().swap_control);
}

#[test]
fn arb_extension_string_is_preferred() {
    assert_eq!(extension_source(true, true), ExtensionSource::Arb);
    assert_eq!(extension_source(true, false), ExtensionSource::Arb);
    assert_eq!(extension_source(false, true), ExtensionSource::Ext);
    assert_eq!(extension_source(false, false), ExtensionSource::Unavailable);
}
