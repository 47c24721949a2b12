use webview_surface::formats::SurfaceFormat;
use webview_surface::negotiate::{negotiate_format, negotiate_format_index, ConfigError};

#[test]
fn empty_capability_set_is_fatal() {
    let caps: Vec<SurfaceFormat> = Vec::new();
    assert_eq!(negotiate_format(&caps), Err(ConfigError::NoSupportedFormats));
    assert_eq!(negotiate_format_index(&caps), Err(ConfigError::NoSupportedFormats));
}

#[test]
fn srgb_format_preferred_over_earlier_linear() {
    let caps = vec![SurfaceFormat::Bgra8Unorm, SurfaceFormat::Bgra8UnormSrgb];
    assert_eq!(negotiate_format(&caps), Ok(SurfaceFormat::Bgra8UnormSrgb));
    assert_eq!(negotiate_format_index(&caps), Ok(1));
}

#[test]
fn first_srgb_in_set_order_wins() {
    let caps = vec![
        SurfaceFormat::Rgba8Unorm,
        SurfaceFormat::Rgba8UnormSrgb,
        SurfaceFormat::Bgra8UnormSrgb,
    ];
    assert_eq!(negotiate_format(&caps), Ok(SurfaceFormat::Rgba8UnormSrgb));
    let caps = vec![SurfaceFormat::Bgra8UnormSrgb, SurfaceFormat::Rgba8UnormSrgb];
    assert_eq!(negotiate_format(&caps), Ok(SurfaceFormat::Bgra8UnormSrgb));
}

#[test]
fn fallback_is_first_entry_when_no_srgb() {
    let caps = vec![SurfaceFormat::OtherLinear, SurfaceFormat::Bgra8Unorm];
    assert_eq!(negotiate_format(&caps), Ok(SurfaceFormat::OtherLinear));
    let caps = vec![SurfaceFormat::Bgra8Unorm];
    assert_eq!(negotiate_format(&caps), Ok(SurfaceFormat::Bgra8Unorm));
}

#[test]
fn negotiated_format_is_member_of_set() {
    let sets = vec![
        vec![SurfaceFormat::OtherLinear],
        vec![SurfaceFormat::Rgba8Unorm, SurfaceFormat::Bgra8Unorm],
        vec![SurfaceFormat::Bgra8Unorm, SurfaceFormat::Rgba8UnormSrgb],
        vec![SurfaceFormat::Bgra8UnormSrgb],
    ];
    for caps in sets {
        let chosen = negotiate_format(&caps).unwrap();
        assert!(caps.contains(&chosen));
    }
}
