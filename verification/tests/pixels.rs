use sdl_safe::SdlError;
use sdl_safe::color::Rgb;
use sdl_safe::color::Rgba;
use sdl_safe::native::CallLog;
use sdl_safe::native::NativeCall;
use sdl_safe::video::pixel_format::AllocReport;
use sdl_safe::video::pixel_format::PixelComponents;
use sdl_safe::video::pixel_format::PixelFormat;
use sdl_safe::video::pixel_format::kind::PixelFormatKind;

fn ok_report(kind: PixelFormatKind) -> AllocReport {
    AllocReport {
        handle: 0xA110C,
        palette: if kind.is_palette() { 0xBEE } else { 0 },
        error: String::new(),
    }
}

fn open(kind: PixelFormatKind) -> PixelFormat {
    PixelFormat::new(kind, ok_report(kind)).expect("a nonzero handle must open")
}

const ALL_KINDS: [PixelFormatKind; 12] = [
    PixelFormatKind::Index8,
    PixelFormatKind::Rgb332,
    PixelFormatKind::Rgb444,
    PixelFormatKind::Rgb555,
    PixelFormatKind::Rgb565,
    PixelFormatKind::Argb1555,
    PixelFormatKind::Argb4444,
    PixelFormatKind::Rgb888,
    PixelFormatKind::Argb8888,
    PixelFormatKind::Rgba8888,
    PixelFormatKind::Abgr8888,
    PixelFormatKind::Bgra8888,
];

#[test]
fn kind_tag_round_trip_recovers_the_member() {
    for k in ALL_KINDS {
        assert_eq!(PixelFormatKind::from_raw(k.into_raw()), Some(k));
    }
    for (i, a) in ALL_KINDS.iter().enumerate() {
        for (j, b) in ALL_KINDS.iter().enumerate() {
            assert_eq!(a.into_raw() == b.into_raw(), i == j);
        }
    }
    assert_eq!(PixelFormatKind::from_raw(0), None);
    assert_eq!(PixelFormatKind::Rgb565.into_raw(), 0x15151002);
}

#[test]
fn allocation_failure_is_classified_by_the_last_error_text() {
    let r = PixelFormat::new(
        PixelFormatKind::Argb8888,
        AllocReport { handle: 0, palette: 0, error: "Out of memory".to_string() },
    );
    assert!(matches!(r, Err(SdlError::OutOfMemory)));

    let r = PixelFormat::new(
        PixelFormatKind::Argb8888,
        AllocReport { handle: 0, palette: 0, error: "Unknown pixel format".to_string() },
    );
    match r {
        Err(SdlError::Others { msg }) => assert_eq!(msg, "Unknown pixel format"),
        _ => panic!("a zero handle must never become a usable wrapper"),
    }
}

#[test]
fn depth_and_size_match_the_kind() {
    let f = open(PixelFormatKind::Rgb565);
    assert_eq!(f.kind(), PixelFormatKind::Rgb565);
    assert_eq!(f.bits_per_pixel(), 16);
    assert_eq!(f.bytes_per_pixel(), 2);
    let f = open(PixelFormatKind::Rgb555);
    assert_eq!(f.bits_per_pixel(), 15);
    assert_eq!(f.bytes_per_pixel(), 2);
    let f = open(PixelFormatKind::Index8);
    assert_eq!(f.bits_per_pixel(), 8);
    assert_eq!(f.bytes_per_pixel(), 1);
}

#[test]
fn components_of_a_palette_format_expose_the_palette_resource() {
    let f = open(PixelFormatKind::Index8);
    match f.components() {
        PixelComponents::PaletteIndex { palette } => assert_eq!(palette, 0xBEE),
        PixelComponents::TrueColor { .. } => panic!("a palette format exposes its palette"),
    }
}

#[test]
fn components_of_true_color_formats_have_disjoint_covering_masks() {
    for k in ALL_KINDS {
        if k.is_palette() {
            continue;
        }
        let f = open(k);
        let (r, g, b, a) = match f.components() {
            PixelComponents::TrueColor { red, green, blue, alpha } => (red, green, blue, alpha),
            PixelComponents::PaletteIndex { .. } => panic!("a true-color format has channels"),
        };
        let masks = [r.mask, g.mask, b.mask, a.mask];
        for i in 0..4 {
            for j in (i + 1)..4 {
                assert_eq!(masks[i] & masks[j], 0, "channel masks overlap in {:?}", k);
            }
        }
        let union = r.mask | g.mask | b.mask | a.mask;
        let bits = f.bits_per_pixel();
        let depth_mask: u32 = if bits == 32 { u32::MAX } else { (1u32 << bits) - 1 };
        assert_eq!(union, depth_mask, "masks do not cover the depth of {:?}", k);
    }
}

#[test]
fn rgb565_channels_sit_where_declared() {
    let f = open(PixelFormatKind::Rgb565);
    match f.components() {
        PixelComponents::TrueColor { red, green, blue, alpha } => {
            assert_eq!((red.mask, red.loss, red.shift), (0xF800, 3, 11));
            assert_eq!((green.mask, green.loss, green.shift), (0x07E0, 2, 5));
            assert_eq!((blue.mask, blue.loss, blue.shift), (0x001F, 3, 0));
            assert_eq!(alpha.mask, 0);
        }
        PixelComponents::PaletteIndex { .. } => panic!("true color expected"),
    }
}

#[test]
fn eight_bit_channels_round_trip_losslessly() {
    for k in [
        PixelFormatKind::Rgb888,
        PixelFormatKind::Argb8888,
        PixelFormatKind::Rgba8888,
        PixelFormatKind::Abgr8888,
        PixelFormatKind::Bgra8888,
    ] {
        let f = open(k);
        let color = Rgb { r: 12, g: 34, b: 56 };
        let pixel = f.pixel_by_rgb(color);
        assert_eq!(f.rgb_from_pixel(pixel), color, "lossy round trip in {:?}", k);
    }
}

#[test]
fn known_pixel_values_for_rgb565_and_argb8888() {
    let f = open(PixelFormatKind::Rgb565);
    assert_eq!(f.pixel_by_rgb(Rgb { r: 255, g: 0, b: 0 }), 0xF800);
    assert_eq!(f.pixel_by_rgb(Rgb { r: 0, g: 255, b: 0 }), 0x07E0);
    assert_eq!(f.pixel_by_rgb(Rgb { r: 0, g: 0, b: 255 }), 0x001F);
    let f = open(PixelFormatKind::Argb8888);
    assert_eq!(f.pixel_by_rgb(Rgb { r: 0x12, g: 0x34, b: 0x56 }), 0xFF123456);
    assert_eq!(
        f.pixel_by_rgba(Rgba { r: 0x12, g: 0x34, b: 0x56, a: 0x78 }),
        0x78123456
    );
}

#[test]
fn low_depth_round_trip_differs_by_at_most_the_quantization_loss() {
    for k in [
        PixelFormatKind::Rgb332,
        PixelFormatKind::Rgb444,
        PixelFormatKind::Rgb555,
        PixelFormatKind::Rgb565,
        PixelFormatKind::Argb1555,
        PixelFormatKind::Argb4444,
    ] {
        let f = open(k);
        let (rl, gl, bl) = match f.components() {
            PixelComponents::TrueColor { red, green, blue, .. } => {
                (red.loss, green.loss, blue.loss)
            }
            PixelComponents::PaletteIndex { .. } => panic!("true color expected"),
        };
        for color in [
            Rgb { r: 255, g: 130, b: 7 },
            Rgb { r: 0, g: 255, b: 255 },
            Rgb { r: 31, g: 32, b: 33 },
        ] {
            let back = f.rgb_from_pixel(f.pixel_by_rgb(color));
            assert!(back.r <= color.r && (color.r - back.r) < (1 << rl));
            assert!(back.g <= color.g && (color.g - back.g) < (1 << gl));
            assert!(back.b <= color.b && (color.b - back.b) < (1 << bl));
        }
    }
}

#[test]
fn formats_without_alpha_read_back_fully_opaque() {
    let f = open(PixelFormatKind::Rgb565);
    let pixel = f.pixel_by_rgba(Rgba { r: 10, g: 20, b: 30, a: 0 });
    assert_eq!(f.rgba_from_pixel(pixel).a, 255);

    let f = open(PixelFormatKind::Argb1555);
    let pixel = f.pixel_by_rgba(Rgba { r: 10, g: 20, b: 30, a: 200 });
    assert_eq!(f.rgba_from_pixel(pixel).a, 128); // one alpha bit survives
}

#[test]
fn a_fresh_palette_maps_everything_to_its_first_entry() {
    let f = open(PixelFormatKind::Index8);
    // all 256 entries start white, so the first minimal entry is index 0
    assert_eq!(f.pixel_by_rgb(Rgb { r: 255, g: 255, b: 255 }), 0);
    assert_eq!(f.pixel_by_rgb(Rgb { r: 0, g: 0, b: 0 }), 0);
    assert_eq!(f.pixel_by_rgba(Rgba { r: 9, g: 9, b: 9, a: 1 }), 0);
}

#[test]
fn palette_pixels_read_back_their_entry() {
    let f = open(PixelFormatKind::Index8);
    assert_eq!(f.rgb_from_pixel(17), Rgb { r: 255, g: 255, b: 255 });
    assert_eq!(f.rgb_from_pixel(255), Rgb { r: 255, g: 255, b: 255 });
    // beyond the palette reads as black
    assert_eq!(f.rgb_from_pixel(256), Rgb { r: 0, g: 0, b: 0 });
    let c = f.rgba_from_pixel(3);
    assert_eq!((c.r, c.g, c.b, c.a), (255, 255, 255, 255));
}

#[test]
fn closing_a_format_releases_its_handle_exactly_once() {
    let f = open(PixelFormatKind::Argb8888);
    let mut log = CallLog::new();
    f.close(&mut log);
    assert_eq!(log.calls(), &vec![NativeCall::Release(0xA110C)]);
}
