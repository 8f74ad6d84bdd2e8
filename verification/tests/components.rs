use shilpo_m3e::button::{clickable, hoverable, ButtonVariant};
use shilpo_m3e::button_group::{corner_radii, tokens, Axis, ButtonGroupMode, Corners};
use shilpo_m3e::button_tokens::{
    button_m3e_row, button_semantic_table, button_shape_row, canonical_height,
    icon_button_m3e_row, paint_plan, ButtonPaintState, ButtonScale, ButtonShapeRow,
    ContainerPaint, RolePaint, ThemeRole,
};
use shilpo_m3e::carousel::Carousel;
use shilpo_m3e::color::{to_ascii_lowercase, ColorName, InvalidColorName};
use shilpo_m3e::components::{
    CardVariant, ChipStyle, ChipVariant, FloatingToolbarOrientation, FloatingToolbarStyle,
    IndicatorAlignment, NavigationRailArrangement, SeparatorStyle, SidePanelPosition,
    ToggleButtonVariant,
};
use shilpo_m3e::icon_button::{IconButtonShape, IconButtonSize, IconButtonVariant, IconButtonWidth};
use shilpo_m3e::recording::{
    RecordingSourceOption, RecordingSourcePicker, RecordingSourcePickerEvent,
};
use shilpo_m3e::shape::{MaterialShape, Morph};
use shilpo_m3e::slider::SliderScale;

#[test]
fn m3_variants_are_strict() {
    assert_eq!(ButtonVariant::default(), ButtonVariant::Filled);
}

#[test]
fn test_all_35_shapes_exist() {
    assert_eq!(MaterialShape::ALL.len(), 35);
}

#[test]
fn shapes_are_distinct_and_morph_keeps_its_ends() {
    for (i, a) in MaterialShape::ALL.iter().enumerate() {
        for b in MaterialShape::ALL.iter().skip(i + 1) {
            assert_ne!(a, b);
        }
    }
    let morph = Morph::new(MaterialShape::ALL[0], MaterialShape::ALL[34]);
    assert_eq!(morph.start, MaterialShape::ALL[0]);
    assert_eq!(morph.end, MaterialShape::ALL[34]);
}

#[test]
fn test_carousel_active_index_wrap() {
    let c = Carousel::new(5).active_index(7);
    assert_eq!(c.current_index(), 2);
}

#[test]
fn carousel_navigation_wraps_both_ways() {
    let c = Carousel::new(5);
    assert_eq!(c.current_index(), 0);
    assert_eq!(c.total(), 5);
    assert_eq!(c.previous_index(), 4);
    assert_eq!(c.next_index(), 1);
    let last = c.active_index(4);
    assert_eq!(last.next_index(), 0);
    assert_eq!(last.previous_index(), 3);
    assert!(last.is_active(4));
    assert!(!last.is_active(0));
}

#[test]
fn carousel_without_items_stays_on_zero() {
    let c = Carousel::new(0).active_index(3);
    assert_eq!(c.current_index(), 0);
    assert_eq!(c.total(), 0);
    assert_eq!(c.previous_index(), 0);
    assert_eq!(c.next_index(), 0);
}

#[test]
fn carousel_total_counts_child_items() {
    let c = Carousel::new(2).item().item().item();
    assert_eq!(c.total(), 3);
    let c = c.active_index(1);
    assert_eq!(c.next_index(), 2);
    assert_eq!(c.active_index(0).previous_index(), 2);
    let c = Carousel::new(1).items(4);
    assert_eq!(c.total(), 4);
    assert_eq!(c.next_index(), 1);
}

#[test]
fn material_group_geometry_is_static() {
    let standard = tokens(ButtonGroupMode::Standard);
    let connected = tokens(ButtonGroupMode::Connected);
    assert_eq!(standard.spacing, 12);
    assert_eq!(connected.spacing, 2);
    assert_eq!(standard.height, 40);
    assert_eq!(connected.outer_radius, 20);
    assert_eq!(connected.inner_radius, 8);
    assert_eq!(connected.pressed_inner_radius, 4);
    assert_eq!(connected.selected_inner_radius, 4);
}

#[test]
fn connected_radii_follow_position_and_axis() {
    let first = corner_radii(ButtonGroupMode::Connected, Axis::Horizontal, 0, 3, false);
    let middle = corner_radii(ButtonGroupMode::Connected, Axis::Horizontal, 1, 3, false);
    let last = corner_radii(ButtonGroupMode::Connected, Axis::Vertical, 2, 3, false);
    let sel = corner_radii(ButtonGroupMode::Connected, Axis::Horizontal, 1, 3, true);
    assert_eq!(first.top_left, 20);
    assert_eq!(first.top_right, 8);
    assert_eq!(middle.top_left, 8);
    assert_eq!(last.bottom_left, 20);
    assert_eq!(sel.top_left, 20);
    assert_eq!(sel.top_right, 20);
}

#[test]
fn standard_and_lone_members_are_fully_rounded() {
    let full = Corners {
        top_left: 20,
        top_right: 20,
        bottom_right: 20,
        bottom_left: 20,
    };
    assert_eq!(
        corner_radii(ButtonGroupMode::Standard, Axis::Horizontal, 1, 3, false),
        full
    );
    assert_eq!(
        corner_radii(ButtonGroupMode::Connected, Axis::Vertical, 0, 1, false),
        full
    );
    assert_eq!(ButtonGroupMode::default(), ButtonGroupMode::Connected);
    let vertical_first = corner_radii(ButtonGroupMode::Connected, Axis::Vertical, 0, 2, false);
    assert_eq!(
        vertical_first,
        Corners {
            top_left: 20,
            top_right: 20,
            bottom_right: 8,
            bottom_left: 8,
        }
    );
}

#[test]
fn canonical_rows_match_m3e_contract() {
    assert_eq!(
        [
            canonical_height(ButtonScale::XSmall),
            canonical_height(ButtonScale::Small),
            canonical_height(ButtonScale::Medium),
            canonical_height(ButtonScale::Large),
            canonical_height(ButtonScale::XLarge),
        ],
        [32, 40, 56, 96, 136]
    );
    let button_rows = [
        (ButtonScale::XSmall, (12, 6, 20, 4, 1)),
        (ButtonScale::Small, (16, 10, 20, 8, 1)),
        (ButtonScale::Medium, (24, 16, 24, 8, 1)),
        (ButtonScale::Large, (48, 32, 32, 12, 2)),
        (ButtonScale::XLarge, (64, 48, 40, 16, 3)),
    ];
    for (scale, expected) in button_rows {
        let row = button_m3e_row(scale);
        assert_eq!(
            (row.horizontal, row.vertical, row.icon, row.gap, row.outline),
            expected
        );
        assert_eq!(row.height, canonical_height(scale));
    }

    let icon_rows = [
        (ButtonScale::XSmall, (32, 20, 12, 8)),
        (ButtonScale::Small, (40, 24, 12, 8)),
        (ButtonScale::Medium, (56, 24, 16, 12)),
        (ButtonScale::Large, (96, 32, 28, 16)),
        (ButtonScale::XLarge, (136, 40, 28, 16)),
    ];
    for (scale, expected) in icon_rows {
        let row = icon_button_m3e_row(scale);
        assert_eq!((row.container, row.icon, row.square, row.pressed), expected);
    }
}

#[test]
fn button_shape_rows_match_contract() {
    for scale in [ButtonScale::XSmall, ButtonScale::Small] {
        assert_eq!(
            button_shape_row(scale),
            ButtonShapeRow {
                square: 12,
                pressed: 8
            }
        );
    }
    assert_eq!(
        button_shape_row(ButtonScale::Medium),
        ButtonShapeRow {
            square: 16,
            pressed: 12
        }
    );
    for scale in [ButtonScale::Large, ButtonScale::XLarge] {
        assert_eq!(
            button_shape_row(scale),
            ButtonShapeRow {
                square: 28,
                pressed: 16
            }
        );
    }
}

/// Opacities are whole percentages: 0.10 is 10, 0.38 is 38, 1.0 is 100.
#[test]
fn semantic_tables_keep_variant_local_disabled_and_elevation_values() {
    let variants = [
        (
            ButtonVariant::Filled,
            (ThemeRole::Primary, ThemeRole::OnPrimary, ThemeRole::Transparent),
            (
                ThemeRole::OnSurface,
                ThemeRole::OnSurfaceVariant,
                ThemeRole::Transparent,
                10,
                38,
                0,
            ),
            ThemeRole::OnPrimary,
            (0, 1, 0, 0, 0),
        ),
        (
            ButtonVariant::Elevated,
            (
                ThemeRole::SurfaceContainerLow,
                ThemeRole::Primary,
                ThemeRole::Transparent,
            ),
            (
                ThemeRole::OnSurface,
                ThemeRole::OnSurfaceVariant,
                ThemeRole::Transparent,
                10,
                38,
                0,
            ),
            ThemeRole::Primary,
            (1, 2, 1, 1, 0),
        ),
        (
            ButtonVariant::FilledTonal,
            (
                ThemeRole::SecondaryContainer,
                ThemeRole::OnSecondaryContainer,
                ThemeRole::Transparent,
            ),
            (
                ThemeRole::OnSurface,
                ThemeRole::OnSurface,
                ThemeRole::Transparent,
                12,
                38,
                0,
            ),
            ThemeRole::OnSecondaryContainer,
            (0, 1, 0, 0, 0),
        ),
        (
            ButtonVariant::Outlined,
            (
                ThemeRole::Transparent,
                ThemeRole::OnSurfaceVariant,
                ThemeRole::OutlineVariant,
            ),
            (
                ThemeRole::Transparent,
                ThemeRole::OnSurfaceVariant,
                ThemeRole::OutlineVariant,
                100,
                38,
                10,
            ),
            ThemeRole::OnSurfaceVariant,
            (0, 0, 0, 0, 0),
        ),
        (
            ButtonVariant::Text,
            (ThemeRole::Transparent, ThemeRole::Primary, ThemeRole::Transparent),
            (
                ThemeRole::Transparent,
                ThemeRole::OnSurfaceVariant,
                ThemeRole::Transparent,
                100,
                38,
                0,
            ),
            ThemeRole::Primary,
            (0, 0, 0, 0, 0),
        ),
    ];
    for (variant, base, disabled, layer, elevation) in variants {
        let table = button_semantic_table(variant);
        assert_eq!(
            (table.base.container, table.base.content, table.base.border),
            base
        );
        assert_eq!(table.selected, table.base);
        assert_eq!(
            (
                table.disabled.container,
                table.disabled.content,
                table.disabled.border,
                table.disabled.container_opacity,
                table.disabled.content_opacity,
                table.disabled.border_opacity
            ),
            disabled
        );
        assert_eq!(table.state_layer, layer);
        assert_eq!(
            (
                table.elevation_rest,
                table.elevation_hover,
                table.elevation_focus,
                table.elevation_pressed,
                table.elevation_disabled
            ),
            elevation
        );
        assert_eq!(table.disabled.content_opacity, 38);
    }
    assert_eq!(
        button_semantic_table(ButtonVariant::Filled)
            .disabled
            .container_opacity,
        10
    );
    assert_eq!(
        button_semantic_table(ButtonVariant::FilledTonal)
            .disabled
            .container_opacity,
        12
    );
    assert_eq!(
        button_semantic_table(ButtonVariant::Filled).disabled.content,
        ThemeRole::OnSurfaceVariant
    );
    assert_eq!(
        button_semantic_table(ButtonVariant::FilledTonal)
            .disabled
            .content,
        ThemeRole::OnSurface
    );
    assert_eq!(
        button_semantic_table(ButtonVariant::Outlined).disabled.border,
        ThemeRole::OutlineVariant
    );
    assert_eq!(
        button_semantic_table(ButtonVariant::Filled).disabled.border,
        ThemeRole::Transparent
    );
}

#[test]
fn plain_buttons_have_no_state_layer() {
    let table = button_semantic_table(ButtonVariant::Plain);
    assert_eq!(table.state_layer, ThemeRole::Transparent);
    let hovered = paint_plan(ButtonVariant::Plain, ButtonPaintState::Hover);
    assert_eq!(
        hovered.content,
        RolePaint {
            role: ThemeRole::OnSurface,
            opacity: 100
        }
    );
    assert!(matches!(hovered.container, ContainerPaint::Solid(_)));
}

#[test]
fn paint_plans_layer_interactive_states() {
    let hover = paint_plan(ButtonVariant::Filled, ButtonPaintState::Hover);
    assert_eq!(
        hover.container,
        ContainerPaint::Layered {
            base: RolePaint {
                role: ThemeRole::Primary,
                opacity: 100
            },
            layer: ThemeRole::OnPrimary,
            layer_opacity: 8,
        }
    );
    assert_eq!(hover.elevation, 1);
    let pressed = paint_plan(ButtonVariant::Elevated, ButtonPaintState::Pressed);
    assert!(matches!(
        pressed.container,
        ContainerPaint::Layered {
            layer_opacity: 10,
            ..
        }
    ));
    assert_eq!(pressed.elevation, 1);
    let disabled = paint_plan(ButtonVariant::Filled, ButtonPaintState::Disabled);
    assert_eq!(
        disabled.container,
        ContainerPaint::Solid(RolePaint {
            role: ThemeRole::OnSurface,
            opacity: 10
        })
    );
    assert_eq!(
        disabled.content,
        RolePaint {
            role: ThemeRole::OnSurfaceVariant,
            opacity: 38
        }
    );
    let rest = paint_plan(ButtonVariant::Outlined, ButtonPaintState::Rest);
    assert_eq!(
        rest.border,
        RolePaint {
            role: ThemeRole::OutlineVariant,
            opacity: 100
        }
    );
}

#[test]
fn colour_names_parse_without_regard_to_case() {
    assert_eq!(ColorName::parse("red"), Ok(ColorName::Red));
    assert_eq!(ColorName::parse("PURPLE"), Ok(ColorName::Purple));
    assert_eq!(ColorName::parse("White"), Ok(ColorName::White));
    assert_eq!(ColorName::try_from("bLaCk"), Ok(ColorName::Black));
    assert_eq!(ColorName::parse("magenta"), Err(InvalidColorName));
    assert_eq!(ColorName::parse(" red"), Err(InvalidColorName));
    assert_eq!(ColorName::parse(""), Err(InvalidColorName));
    assert_eq!(to_ascii_lowercase("MiXeD-Ä"), "mixed-Ä");
}

#[test]
fn colour_palette_order_and_components() {
    let all = ColorName::all();
    assert_eq!(all.len(), 8);
    assert_eq!(all[0], ColorName::Red);
    assert_eq!(all[7], ColorName::Purple);
    assert!(!all.contains(&ColorName::White));
    assert!(!all.contains(&ColorName::Black));
    assert_eq!(ColorName::Blue.hsl(), (221, 83, 53));
    assert_eq!(ColorName::White.hsl(), (0, 0, 100));
    assert_eq!(ColorName::Cyan.hsl(), (189, 94, 43));
}

#[test]
fn recording_picker_answers() {
    let option = RecordingSourceOption::new("Screen 1".to_string(), "1920×1080".to_string());
    assert_eq!(option.label, "Screen 1");
    assert_eq!(option.description, "1920×1080");
    let picker = RecordingSourcePicker::new(vec![option]);
    assert!(!picker.shows_empty_note());
    let response = picker.select(0);
    assert_eq!(response.event, RecordingSourcePickerEvent::Selected(0));
    assert!(!response.close_window);
    let picker = picker.dismiss_window();
    assert!(picker.cancel().close_window);
    assert_eq!(
        picker.key_down("ESCAPE").map(|r| r.event),
        Some(RecordingSourcePickerEvent::Cancelled)
    );
    assert_eq!(picker.key_down("enter"), None);
    assert!(RecordingSourcePicker::new(Vec::new()).shows_empty_note());
}

#[test]
fn default_variants_and_scales() {
    assert_eq!(CardVariant::default(), CardVariant::Filled);
    assert_eq!(ChipVariant::default(), ChipVariant::Assist);
    assert_eq!(ChipStyle::default(), ChipStyle::Flat);
    assert_eq!(ToggleButtonVariant::default(), ToggleButtonVariant::Filled);
    assert_eq!(SidePanelPosition::default(), SidePanelPosition::Right);
    assert_eq!(
        NavigationRailArrangement::default(),
        NavigationRailArrangement::Top
    );
    assert_eq!(
        FloatingToolbarOrientation::default(),
        FloatingToolbarOrientation::Horizontal
    );
    assert_eq!(FloatingToolbarStyle::default(), FloatingToolbarStyle::Standard);
    assert_eq!(SeparatorStyle::default(), SeparatorStyle::Solid);
    assert_eq!(IndicatorAlignment::default(), IndicatorAlignment::Container);
    assert_eq!(IconButtonVariant::default(), IconButtonVariant::Standard);
    assert_eq!(IconButtonSize::default(), IconButtonSize::Medium);
    assert_eq!(IconButtonWidth::default(), IconButtonWidth::Default);
    assert_eq!(IconButtonShape::default(), IconButtonShape::Round);
    assert_eq!(SliderScale::default(), SliderScale::Linear);
    assert!(SliderScale::Linear.is_linear());
    assert!(!SliderScale::Linear.is_logarithmic());
    assert!(SliderScale::Logarithmic.is_logarithmic());
}

#[test]
fn disabled_or_loading_buttons_take_no_clicks() {
    assert!(clickable(false, false, true));
    assert!(!clickable(true, false, true));
    assert!(!clickable(false, true, true));
    assert!(!clickable(false, false, false));
    assert!(hoverable(false, false, true));
    assert!(!hoverable(false, true, true));
}
