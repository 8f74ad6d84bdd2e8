use shilpo_m3e::argb::{argb_channels, hex_rgb, hex_rgba, pack_argb};
use shilpo_m3e::button_tokens::{ButtonScale, ThemeRole};
use shilpo_m3e::color::{split_color_spec, split_linear_gradient, ColorSpec, GradientParts};
use shilpo_m3e::icon_button::{
    colors, dimensions, icon_button_dimensions, resolve_width, IconButtonColors, IconButtonSize,
    IconButtonVariant, IconButtonWidth,
};
use shilpo_m3e::split_button::{tokens, SplitButtonShape};
use shilpo_m3e::strings::{parse_usize, trim_chars};

#[test]
fn icon_button_size_table_is_static() {
    let expected = [
        (IconButtonSize::XSmall, 32, 16),
        (IconButtonSize::Small, 40, 20),
        (IconButtonSize::Medium, 48, 24),
        (IconButtonSize::Large, 56, 28),
        (IconButtonSize::XLarge, 72, 32),
    ];
    for (size, container, icon) in expected {
        let dimensions = dimensions(size);
        assert_eq!(dimensions.container, container);
        assert_eq!(dimensions.icon, icon);
    }
    assert_eq!(icon_button_dimensions(IconButtonSize::XXSmall).container, 18);
    assert_eq!(icon_button_dimensions(IconButtonSize::XXSmall).icon, 12);
}

#[test]
fn icon_button_widths() {
    assert_eq!(resolve_width(IconButtonSize::Medium, IconButtonWidth::Default), 48);
    assert_eq!(resolve_width(IconButtonSize::Medium, IconButtonWidth::Narrow), 36);
    assert_eq!(resolve_width(IconButtonSize::Medium, IconButtonWidth::Wide), 64);
    assert_eq!(resolve_width(IconButtonSize::XXSmall, IconButtonWidth::Narrow), 14);
    assert_eq!(resolve_width(IconButtonSize::XLarge, IconButtonWidth::Wide), 96);
    for size in [
        IconButtonSize::XXSmall,
        IconButtonSize::XSmall,
        IconButtonSize::Small,
        IconButtonSize::Medium,
        IconButtonSize::Large,
        IconButtonSize::XLarge,
    ] {
        let container = dimensions(size).container;
        assert!(resolve_width(size, IconButtonWidth::Narrow) < container);
        assert!(resolve_width(size, IconButtonWidth::Wide) > container);
    }
}

#[test]
fn icon_button_colour_roles() {
    assert_eq!(
        colors(IconButtonVariant::Standard, false),
        IconButtonColors {
            container: ThemeRole::Transparent,
            content: ThemeRole::OnSurfaceVariant,
            border: ThemeRole::Transparent,
        }
    );
    assert_eq!(
        colors(IconButtonVariant::Standard, true).container,
        ThemeRole::PrimaryContainer
    );
    assert_eq!(
        colors(IconButtonVariant::Filled, true),
        colors(IconButtonVariant::Filled, false)
    );
    assert_eq!(
        colors(IconButtonVariant::FilledTonal, true).content,
        ThemeRole::OnSecondary
    );
    assert_eq!(
        colors(IconButtonVariant::Outlined, false).border,
        ThemeRole::OutlineVariant
    );
    assert_eq!(
        colors(IconButtonVariant::Outlined, true).border,
        ThemeRole::Primary
    );
}

#[test]
fn android_x_split_button_tables_are_exact() {
    let xlarge = tokens(ButtonScale::XLarge);
    assert_eq!(xlarge.height, 136);
    assert_eq!(xlarge.leading_start, 64);
    assert_eq!(xlarge.leading_end, 64);
    assert_eq!(xlarge.trailing_start, 43);
    assert_eq!(xlarge.trailing_end, 43);
    assert_eq!(xlarge.icon, 50);
    assert_eq!(xlarge.min_width, 48);
    assert_eq!(xlarge.inner_radius, 12);
    assert_eq!(xlarge.shapes.pressed_shape, SplitButtonShape::Corner(20));
    assert_eq!(xlarge.shapes.checked_shape, SplitButtonShape::CornerFull);
    assert_eq!(xlarge.between_space, 2);
}

#[test]
fn static_inner_and_pressed_radii_follow_size_scale() {
    let expected = [
        (ButtonScale::XSmall, 4, 8),
        (ButtonScale::Small, 4, 12),
        (ButtonScale::Medium, 4, 12),
        (ButtonScale::Large, 8, 20),
        (ButtonScale::XLarge, 12, 20),
    ];
    for (scale, inner, pressed) in expected {
        let tokens = tokens(scale);
        assert_eq!(tokens.inner_radius, inner);
        assert_eq!(tokens.shapes.shape, SplitButtonShape::CornerFull);
        assert_eq!(tokens.shapes.hovered_shape, SplitButtonShape::Corner(pressed));
        assert_eq!(tokens.shapes.pressed_shape, SplitButtonShape::Corner(pressed));
        assert_eq!(tokens.shapes.checked_shape, SplitButtonShape::CornerFull);
        assert_eq!(tokens.between_space, 2);
    }
    assert_eq!(tokens(ButtonScale::Medium).height, 56);
    assert_eq!(tokens(ButtonScale::Small).leading_end, 12);
}

#[test]
fn argb_converts_channels() {
    assert_eq!(argb_channels(0x80402010), (0x80, 0x40, 0x20, 0x10));
    assert_eq!(pack_argb(0x80, 0x40, 0x20, 0x10), 0x80402010);
    for argb in [0u32, 0xffffffff, 0xff6750a4, 0x00ff0001] {
        let (a, r, g, b) = argb_channels(argb);
        assert_eq!(pack_argb(a, r, g, b), argb);
    }
}

#[test]
fn hex_notation_is_upper_case() {
    assert_eq!(hex_rgb(0x67, 0x50, 0xa4), "#6750A4");
    assert_eq!(hex_rgb(0, 0, 0), "#000000");
    assert_eq!(hex_rgba(0xff, 0x0f, 0x10, 0x80), "#FF0F1080");
}

#[test]
fn colour_values_split_into_name_shade_and_opacity() {
    assert_eq!(split_color_spec("#ff0000"), ColorSpec::Hex);
    assert_eq!(
        split_color_spec("red-400/50"),
        ColorSpec::Named {
            name: "red".to_string(),
            scale: 400,
            opacity: Some("50".to_string()),
        }
    );
    assert_eq!(
        split_color_spec("Blue"),
        ColorSpec::Named {
            name: "Blue".to_string(),
            scale: 500,
            opacity: None,
        }
    );
    assert_eq!(
        split_color_spec("green-x"),
        ColorSpec::Named {
            name: "green".to_string(),
            scale: 500,
            opacity: None,
        }
    );
    assert_eq!(
        split_color_spec("pink/50-3"),
        ColorSpec::Named {
            name: "pink".to_string(),
            scale: 500,
            opacity: Some("50-3".to_string()),
        }
    );
    assert_eq!(
        split_color_spec(""),
        ColorSpec::Named {
            name: String::new(),
            scale: 500,
            opacity: None,
        }
    );
}

#[test]
fn gradients_split_into_angle_and_stops() {
    assert_eq!(
        split_linear_gradient("  linear-gradient(90deg, red, blue-300) "),
        Some(GradientParts {
            angle: Some("90".to_string()),
            from: Some("red".to_string()),
            to: Some("blue-300".to_string()),
        })
    );
    assert_eq!(
        split_linear_gradient("linear-gradient(red ,  #00ff00, extra)"),
        Some(GradientParts {
            angle: None,
            from: Some("red".to_string()),
            to: Some("#00ff00".to_string()),
        })
    );
    assert_eq!(
        split_linear_gradient("linear-gradient(45degdeg)"),
        Some(GradientParts {
            angle: Some("45".to_string()),
            from: None,
            to: None,
        })
    );
    assert_eq!(
        split_linear_gradient("linear-gradient(red)"),
        Some(GradientParts {
            angle: None,
            from: Some("red".to_string()),
            to: None,
        })
    );
    assert_eq!(split_linear_gradient("radial-gradient(red, blue)"), None);
    assert_eq!(split_linear_gradient("linear-gradient(red, blue"), None);
    assert_eq!(split_linear_gradient("linear-gradient("), None);
}

#[test]
fn usize_parsing_matches_std() {
    for text in ["0", "500", "+7", "", "+", "-1", "12a", " 3", "18446744073709551615", "18446744073709551616", "99999999999999999999999"] {
        assert_eq!(parse_usize(text), text.parse::<usize>().ok(), "{text:?}");
    }
}

#[test]
fn trimming_matches_std() {
    for text in ["", "  ", " a b ", "\u{3000}x\t", "x"] {
        let chars: Vec<char> = text.chars().collect();
        assert_eq!(trim_chars(&chars), text.trim());
    }
}
