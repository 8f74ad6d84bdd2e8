use shilpo_m3e::components::{
    checkbox_paint, chip_automatic_icons, chip_metrics, chip_paint, toggle_button_metrics, toggle_button_paint,
    ChipVariant, ControlSize, RoleAt, SurfaceRole, ToggleButtonVariant,
};

#[test]
fn toggle_buttons_paint_by_variant_and_state() {
    let checked = toggle_button_paint(ToggleButtonVariant::Elevated, true, false);
    assert_eq!(checked.container.role, SurfaceRole::Primary);
    assert_eq!(checked.content.role, SurfaceRole::OnPrimary);
    assert!(checked.shadow);
    assert!(!toggle_button_paint(ToggleButtonVariant::Filled, true, false).shadow);
    let tonal = toggle_button_paint(ToggleButtonVariant::Tonal, true, false);
    assert_eq!(tonal.container.role, SurfaceRole::SecondaryContainer);
    let outlined = toggle_button_paint(ToggleButtonVariant::Outlined, false, false);
    assert_eq!(outlined.container.role, SurfaceRole::Surface);
    assert_eq!(outlined.border.role, SurfaceRole::Outline);
    assert!(toggle_button_paint(ToggleButtonVariant::Elevated, false, false).shadow);
    let disabled = toggle_button_paint(ToggleButtonVariant::Filled, true, true);
    assert_eq!(
        disabled.content,
        RoleAt {
            role: SurfaceRole::OnSurface,
            opacity: 38
        }
    );
    assert!(!disabled.shadow);
}

#[test]
fn chips_paint_by_state() {
    let plain = chip_paint(false, false, false);
    assert_eq!(
        plain.border,
        RoleAt {
            role: SurfaceRole::Outline,
            opacity: 50
        }
    );
    assert!(!plain.shadow);
    assert!(chip_paint(false, true, false).shadow);
    assert!(chip_paint(true, true, false).shadow);
    assert_eq!(
        chip_paint(true, false, false).content.role,
        SurfaceRole::OnSecondaryContainer
    );
    assert_eq!(chip_paint(true, true, true), toggle_button_paint(ToggleButtonVariant::Tonal, false, true));
}

#[test]
fn control_metrics_per_size() {
    let t = toggle_button_metrics(ControlSize::Large);
    assert_eq!((t.height, t.padding_x, t.font_size, t.icon_size), (48, 20, 15, 20));
    let c = chip_metrics(ControlSize::XSmall);
    assert_eq!((c.height, c.padding_x, c.font_size, c.icon_size), (24, 8, 11, 14));
    assert_eq!(chip_metrics(ControlSize::Large).height, 38);
}

#[test]
fn chips_add_check_and_close_icons() {
    assert_eq!(chip_automatic_icons(ChipVariant::Filter, true, true), (true, false));
    assert_eq!(chip_automatic_icons(ChipVariant::Filter, false, false), (false, false));
    assert_eq!(chip_automatic_icons(ChipVariant::Input, false, true), (false, true));
    assert_eq!(chip_automatic_icons(ChipVariant::Assist, true, true), (false, false));
}

#[test]
fn checkbox_paint_by_state() {
    let on = checkbox_paint(true, false);
    assert_eq!(on.border.role, SurfaceRole::Primary);
    assert_eq!(on.fill, RoleAt { role: SurfaceRole::Primary, opacity: 100 });
    assert!(on.shows_check);
    let on_disabled = checkbox_paint(true, true);
    assert_eq!(on_disabled.fill.opacity, 50);
    assert_eq!(on_disabled.check.opacity, 50);
    assert_eq!(on_disabled.label.role, SurfaceRole::OnSurfaceVariant);
    let off = checkbox_paint(false, false);
    assert_eq!(off.border.role, SurfaceRole::SurfaceContainerHighest);
    assert_eq!(off.fill.opacity, 100);
    assert!(!off.shows_check);
    assert_eq!(off.label.role, SurfaceRole::OnSurface);
}
