use verdigris_core::color::{color_from_channels, left_out, parse_color, Rgb};
use verdigris_core::context::ThemeContext;
use verdigris_core::error::Error;
use verdigris_core::style::{
    describe, resolve, Fill, Gradient, Size, StyleProps, Theme, Variant, VariantKind,
};

fn rgb(red: u8, green: u8, blue: u8) -> Rgb {
    Rgb { red, green, blue }
}

#[test]
fn gradient_of_two_hex_colors_keeps_colors_and_angle() {
    let theme = Theme::default();
    let props = StyleProps::new().with_variant(Variant::gradient("#3eafa8", "#4bd5cc", 45));
    let d = resolve(&props, &theme).unwrap();
    assert_eq!(
        d.gradient,
        Some(Gradient { from: rgb(0x3e, 0xaf, 0xa8), to: rgb(0x4b, 0xd5, 0xcc), angle: 45 })
    );
    assert_eq!(d.kind, VariantKind::Gradient);
    assert_eq!(d.fill, Fill::Blend);
}

#[test]
fn invalid_color_text_fails_and_theme_stays() {
    let theme = Theme::default();
    let before = theme;
    let props = StyleProps::new().with_variant(Variant::gradient("not-a-color", "#4bd5cc", 45));
    assert_eq!(resolve(&props, &theme), Err(Error::InvalidColorSpec));
    let props = StyleProps::new().with_variant(Variant::gradient("#3eafa8", "not-a-color", 45));
    assert_eq!(resolve(&props, &theme), Err(Error::InvalidColorSpec));
    assert_eq!(theme, before);
    assert_eq!(theme, Theme::default());
}

#[test]
fn explicit_size_overrides_theme_default() {
    let theme = Theme::default();
    assert_eq!(theme.size, Size::Medium);
    let inherited = resolve(&StyleProps::new(), &theme).unwrap();
    assert_eq!(inherited.size, Size::Medium);
    assert_eq!(inherited.extent, 16);
    let own = resolve(&StyleProps::new().with_size(Size::ExtraLarge), &theme).unwrap();
    assert_eq!(own.size, Size::ExtraLarge);
    assert_eq!(own.extent, 32);
    let other = Theme { size: Size::Small, ..theme };
    let own_again = resolve(&StyleProps::new().with_size(Size::ExtraLarge), &other).unwrap();
    assert_eq!(own_again, own);
    assert_eq!(resolve(&StyleProps::new(), &other).unwrap().extent, 12);
}

#[test]
fn resolving_twice_gives_equal_descriptors() {
    let theme = Theme::default();
    let props = StyleProps::new()
        .with_variant(Variant::gradient("#3eafa8", "#4bd5cc", 60))
        .with_compact(true);
    assert_eq!(resolve(&props, &theme), resolve(&props, &theme));
    let bad = StyleProps::new().with_variant(Variant::gradient("nope", "#4bd5cc", 60));
    assert_eq!(resolve(&bad, &theme), resolve(&bad, &theme));
}

#[test]
fn color_names_and_notations_are_read() {
    assert_eq!(parse_color("deeppink"), Ok(rgb(255, 20, 147)));
    assert_eq!(parse_color("rgb(255, 0, 10)"), Ok(rgb(255, 0, 10)));
    assert_eq!(parse_color("#fff"), Ok(rgb(255, 255, 255)));
    assert_eq!(parse_color("  #3EAFA8 "), Ok(rgb(0x3e, 0xaf, 0xa8)));
    assert_eq!(parse_color("#3eafa880"), Ok(rgb(0x3e, 0xaf, 0xa8)));
    assert_eq!(parse_color("hsl(0, 0%, 100%)"), Ok(rgb(255, 255, 255)));
}

#[test]
fn texts_outside_the_grammar_are_invalid() {
    assert_eq!(parse_color("not-a-color"), Err(Error::InvalidColorSpec));
    assert_eq!(parse_color(""), Err(Error::InvalidColorSpec));
    assert_eq!(parse_color("#12"), Err(Error::InvalidColorSpec));
    assert_eq!(parse_color("#gggggg"), Err(Error::InvalidColorSpec));
    assert_eq!(parse_color("rgb(256, 0, 0)"), Err(Error::InvalidColorSpec));
}

#[test]
fn four_digit_form_is_left_out() {
    assert!(left_out("#f0ff"));
    assert!(left_out("  #F0Ff\n"));
    assert!(left_out("\u{a0}#1234\u{3000}"));
    assert!(!left_out("#f0f"));
    assert!(!left_out("#f0ff0"));
    assert!(!left_out("f0ff"));
    assert!(!left_out("#3eafa8"));
    assert!(!left_out(""));
    assert_eq!(parse_color("#f0ff"), Err(Error::InvalidColorSpec));
    assert_eq!(parse_color(" #F0FF "), Err(Error::InvalidColorSpec));
}

#[test]
fn hue_of_a_full_turn_is_left_out() {
    assert!(left_out("hsl(360, 100%, 50%)"));
    assert!(left_out("HSV(360.0, 1, 1)"));
    assert!(left_out("hwb(36000%, 0, 0)"));
    assert!(left_out("hsla(359.99999999999999999, 1, 0.5, 1)"));
    assert!(left_out("360 1 0.5 Hsl"));
    assert!(!left_out("hsl(0, 100%, 50%)"));
    assert!(!left_out("hsl(36, 0%, 50%)"));
    assert!(!left_out("rgb(36, 0, 59)"));
    assert!(!left_out("hs"));
    assert!(!left_out("36"));
    for text in [
        "hsl(360, 100%, 50%)",
        "HSV(360.0, 1, 1)",
        "hwb(36000%, 0, 0)",
        "hsla(359.99999999999999999, 1, 0.5, 1)",
        "360 1 0.5 Hsl",
    ] {
        assert_eq!(parse_color(text), Err(Error::InvalidColorSpec));
    }
    assert_eq!(parse_color("hsl(0, 100%, 50%)"), Ok(rgb(255, 0, 0)));
    assert_eq!(parse_color("hsl(120, 100%, 50%)"), Ok(rgb(0, 255, 0)));
    assert_eq!(parse_color("hsv(240, 100%, 100%)"), Ok(rgb(0, 0, 255)));
    assert_eq!(parse_color("hsi(360, 0, 1)"), Ok(rgb(255, 255, 255)));
}

#[test]
fn odd_texts_are_answered_without_failing() {
    for text in [
        "#", "##", "#12345", "#1234567", "#123456789", "(", ")", "rgb(", "rgb()", "rgb(1,2)",
        "rgb(1,2,3,4)", "1 2 3", "rgb 1 2 3 rgba", "hex(1,2,3)", "hexa(1,2,3,4)", "-", ".", "%",
        "rgb(-,.,%)", "lab(50, 0, 0)", "cmyk(0,0,0,0)", "xyz(0.1,0.1,0.1)", "yiq(0.5,0,0)",
        "yuv(0.5,0,0)", "ycbcr(16,128,128)", "\u{6c34}\u{7eff}", "K", "\u{212a}",
    ] {
        let _ = parse_color(text);
    }
    assert_eq!(parse_color("rgb 1 2 3"), Ok(rgb(1, 2, 3)));
    assert_eq!(parse_color("\u{6c34}\u{7eff}"), Ok(rgb(140, 194, 105)));
}

#[test]
fn channels_become_a_color() {
    assert_eq!(color_from_channels(Some((1, 2, 3))), Ok(rgb(1, 2, 3)));
    assert_eq!(color_from_channels(None), Err(Error::InvalidColorSpec));
}

#[test]
fn angle_is_stored_as_given_and_turned_for_rendering() {
    let g = |angle: i64| Gradient { from: rgb(0, 0, 0), to: rgb(1, 1, 1), angle };
    assert_eq!(g(45).direction(), 45);
    assert_eq!(g(405).direction(), 45);
    assert_eq!(g(-45).direction(), 315);
    assert_eq!(g(360).direction(), 0);
    assert_eq!(g(-360).direction(), 0);
    assert_eq!(g(i64::MIN).direction(), 352);
    assert_eq!(g(i64::MAX).direction(), 7);
    let theme = Theme::default();
    let props = StyleProps::new().with_variant(Variant::gradient("#000", "#fff", 765));
    assert_eq!(resolve(&props, &theme).unwrap().gradient.unwrap().angle, 765);
}

#[test]
fn each_treatment_has_its_attributes() {
    let theme = Theme::default();
    let p = theme.palette;
    let of = |v: Variant| resolve(&StyleProps::new().with_variant(v), &theme).unwrap();
    let filled = of(Variant::Filled);
    assert_eq!((filled.fill, filled.outline, filled.ink), (Fill::Solid(p.accent), None, p.on_accent));
    let outline = of(Variant::Outline);
    assert_eq!((outline.fill, outline.outline, outline.ink), (Fill::Clear, Some(p.accent), p.accent));
    let light = of(Variant::Light);
    assert_eq!((light.fill, light.outline, light.ink), (Fill::Solid(p.tint), None, p.accent));
    let subtle = of(Variant::Subtle);
    assert_eq!((subtle.fill, subtle.outline, subtle.ink), (Fill::Clear, None, p.accent));
    assert_eq!(filled.gradient, None);
    assert_eq!(Variant::Subtle.kind(), VariantKind::Subtle);
    assert_eq!(Variant::gradient("a", "b", 0).kind(), VariantKind::Gradient);
}

#[test]
fn modifiers_come_from_the_component_first() {
    let theme = Theme::default();
    let plain = resolve(&StyleProps::new(), &theme).unwrap();
    assert_eq!((plain.compact, plain.hover_tilt, plain.outline), (false, false, None));
    assert_eq!(plain.inset, 16);
    let props = StyleProps::new()
        .with_compact(true)
        .with_bordered(true)
        .with_hover_tilt(true)
        .with_padding(Size::Large);
    let d = resolve(&props, &theme).unwrap();
    assert_eq!((d.compact, d.hover_tilt), (true, true));
    assert_eq!(d.outline, Some(theme.palette.line));
    assert_eq!(d.padding, Size::Large);
    assert_eq!(d.inset, 10);
    let compact_theme = Theme { compact: true, ..theme };
    assert_eq!(resolve(&StyleProps::new(), &compact_theme).unwrap().inset, 8);
    let loose = resolve(&StyleProps::new().with_compact(false), &compact_theme).unwrap();
    assert_eq!((loose.compact, loose.inset), (false, 16));
}

#[test]
fn theme_gradient_is_used_when_the_component_names_no_treatment() {
    let theme = Theme { variant: VariantKind::Gradient, angle: 90, ..Theme::default() };
    let d = resolve(&StyleProps::new(), &theme).unwrap();
    assert_eq!(
        d.gradient,
        Some(Gradient { from: theme.palette.accent, to: theme.palette.accent_end, angle: 90 })
    );
    let own = resolve(&StyleProps::new().with_variant(Variant::Outline), &theme).unwrap();
    assert_eq!(own.kind, VariantKind::Outline);
    assert_eq!(own.gradient, None);
}

#[test]
fn describe_takes_the_gradient_as_given() {
    let theme = Theme::default();
    let g = Gradient { from: rgb(1, 2, 3), to: rgb(4, 5, 6), angle: -10 };
    let props = StyleProps::new().with_variant(Variant::gradient("x", "y", 7));
    let d = describe(&props, &theme, Some(g));
    assert_eq!(d.gradient, Some(g));
    assert_eq!(d.kind, VariantKind::Gradient);
}

#[test]
fn sizes_are_ordered() {
    let ranks: Vec<u8> = [Size::ExtraSmall, Size::Small, Size::Medium, Size::Large, Size::ExtraLarge]
        .iter()
        .map(|s| s.rank())
        .collect();
    assert_eq!(ranks, vec![0, 1, 2, 3, 4]);
    let scale = Theme::default().scale;
    assert_eq!(scale.entry(Size::ExtraSmall), 10);
    assert_eq!(scale.entry(Size::Large), 20);
}

#[test]
fn nearest_provider_shadows_the_ones_around_it() {
    let mut context = ThemeContext::new();
    assert_eq!(context.depth(), 0);
    assert_eq!(context.nearest(), Theme::default());
    assert_eq!(context.leave(), None);

    let outer = Theme { size: Size::Large, ..Theme::default() };
    let inner = Theme { size: Size::Small, compact: true, ..Theme::default() };
    context.provide(outer);
    assert_eq!(context.nearest(), outer);
    context.provide(inner);
    assert_eq!(context.depth(), 2);
    assert_eq!(context.nearest(), inner);
    let d = resolve(&StyleProps::new(), &context.nearest()).unwrap();
    assert_eq!((d.size, d.extent, d.inset), (Size::Small, 12, 8));
    let own = resolve(&StyleProps::new().with_size(Size::Medium), &context.nearest()).unwrap();
    assert_eq!((own.size, own.extent), (Size::Medium, 16));

    assert_eq!(context.leave(), Some(inner));
    assert_eq!(context.nearest(), outer);
    assert_eq!(resolve(&StyleProps::new(), &context.nearest()).unwrap().extent, 20);
    assert_eq!(context.leave(), Some(outer));
    assert_eq!(context.nearest(), Theme::default());
    assert_eq!(context.depth(), 0);
}

#[test]
fn every_text_gets_an_answer() {
    let pieces = [
        "#", "0", "1", "3", "5", "6", "9", "a", "f", "F", "g", "h", "H", "s", "S", "l", "v", "w",
        "b", "i", "r", "g", "(", ")", ",", " ", "%", ".", "-", "hsl", "hsv", "hwb", "hsi", "hsla",
        "rgb", "rgba", "cmyk", "lab", "xyz", "yiq", "yuv", "ycbcr", "hex", "360", "359", "100%",
        "0.5", "255", "red", "\u{a0}", "\u{212a}",
    ];
    let mut state: u64 = 0x9e3779b97f4a7c15;
    let mut step = || {
        state = state.wrapping_mul(6364136223846793005).wrapping_add(1442695040888963407);
        (state >> 33) as usize
    };
    let mut accepted = 0;
    for _ in 0..200_000 {
        let mut text = String::new();
        for _ in 0..(1 + step() % 9) {
            text.push_str(pieces[step() % pieces.len()]);
        }
        if parse_color(&text).is_ok() {
            accepted += 1;
            assert!(!left_out(&text));
        }
    }
    assert!(accepted > 0);
}
