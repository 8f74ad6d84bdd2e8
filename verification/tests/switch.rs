use shilpo_m3e::switch::{
    switch_colors, switch_layout, SwitchPaint, SwitchRole, SwitchSize,
};

#[test]
fn switch_tracks_and_thumbs_per_size() {
    let xs = switch_layout(SwitchSize::XSmall, false);
    assert_eq!((xs.track_width, xs.track_height), (36, 20));
    assert_eq!((xs.unchecked_thumb, xs.checked_thumb, xs.icon), (10, 14, 8));
    assert_eq!((xs.unchecked_x, xs.unchecked_y), (3, 3));
    assert_eq!((xs.checked_x, xs.checked_y), (17, 1));

    let medium = switch_layout(SwitchSize::Medium, false);
    assert_eq!(medium, switch_layout(SwitchSize::Large, false));
    assert_eq!((medium.track_width, medium.track_height), (52, 32));
    assert_eq!((medium.unchecked_x, medium.checked_x), (6, 22));

    let small = switch_layout(SwitchSize::Small, false);
    assert_eq!((small.unchecked_x, small.checked_x, small.checked_y), (4, 21, 1));
}

#[test]
fn unchecked_icon_enlarges_the_unchecked_thumb() {
    let with_icon = switch_layout(SwitchSize::Medium, true);
    assert_eq!(with_icon.unchecked_thumb, 24);
    assert_eq!((with_icon.unchecked_x, with_icon.unchecked_y), (2, 2));
}

#[test]
fn switch_colours_by_state() {
    let on = switch_colors(true, false);
    assert_eq!(
        on.track,
        SwitchPaint {
            role: SwitchRole::Accent,
            opacity: 100
        }
    );
    assert_eq!(on.thumb.role, SwitchRole::OnPrimary);
    assert_eq!(on.icon.role, SwitchRole::Primary);
    let off_disabled = switch_colors(false, true);
    assert_eq!(
        off_disabled.border,
        SwitchPaint {
            role: SwitchRole::Outline,
            opacity: 12
        }
    );
    assert_eq!(
        off_disabled.thumb,
        SwitchPaint {
            role: SwitchRole::Outline,
            opacity: 38
        }
    );
    assert_eq!(off_disabled.track.role, SwitchRole::SurfaceContainerHighest);
    assert_eq!(off_disabled.label.opacity, 38);
    assert_eq!(switch_colors(true, false).label.opacity, 100);
}
