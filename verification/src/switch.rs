//! A switch's layout and paint: the track and thumb sizes of each semantic
//! size, where the thumb rests when checked and unchecked, and the roles and
//! opacities of the track, its border and the thumb in each state.

use vstd::prelude::*;

verus! {

/// The semantic sizes of a switch.
#[derive(Clone, Copy, Debug, PartialEq, Eq, Structural)]
pub enum SwitchSize {
    XSmall,
    Small,
    Medium,
    Large,
}

/// The geometry of a switch (device-independent pixels): its track, its
/// thumb in each state with the thumb's offset from the inside of the
/// track's 2-pixel border, and its icon.
#[derive(Clone, Copy, Debug, PartialEq, Eq, Structural)]
pub struct SwitchLayout {
    pub track_width: u32,
    pub track_height: u32,
    pub unchecked_thumb: u32,
    pub checked_thumb: u32,
    pub icon: u32,
    pub unchecked_x: u32,
    pub unchecked_y: u32,
    pub checked_x: u32,
    pub checked_y: u32,
}

/// The track width and height, the unchecked and checked thumb sizes and
/// the icon size of each size; medium and large switches are the same.
pub open spec fn switch_dimensions(size: SwitchSize) -> (u32, u32, u32, u32, u32) {
    match size {
        SwitchSize::XSmall => (36, 20, 10, 14, 8),
        SwitchSize::Small => (44, 24, 12, 18, 10),
        SwitchSize::Medium => (52, 32, 16, 24, 12),
        SwitchSize::Large => (52, 32, 16, 24, 12),
    }
}

/// The layout of a switch of `size`: an unchecked thumb is as large as a
/// checked one when the switch shows an unchecked icon; an unchecked thumb
/// is centred at the start of the track's inside and a checked one at its
/// end, both centred vertically.
pub open spec fn switch_layout_spec(size: SwitchSize, has_unchecked_icon: bool) -> SwitchLayout {
    let (width, height, unchecked, checked, icon) = switch_dimensions(size);
    let unchecked = if has_unchecked_icon {
        checked
    } else {
        unchecked
    };
    let usable_width = width - 4;
    let usable_height = height - 4;
    SwitchLayout {
        track_width: width,
        track_height: height,
        unchecked_thumb: unchecked,
        checked_thumb: checked,
        icon,
        unchecked_x: ((usable_height - unchecked) / 2) as u32,
        unchecked_y: ((usable_height - unchecked) / 2) as u32,
        checked_x: (usable_width - checked - (usable_height - checked) / 2) as u32,
        checked_y: ((usable_height - checked) / 2) as u32,
    }
}

/// The layout of a switch of `size`, with or without an unchecked icon.
pub fn switch_layout(size: SwitchSize, has_unchecked_icon: bool) -> (layout: SwitchLayout)
    ensures
        layout == switch_layout_spec(size, has_unchecked_icon),
{
    let (width, height, unchecked, checked, icon): (u32, u32, u32, u32, u32) = match size {
        SwitchSize::XSmall => (36, 20, 10, 14, 8),
        SwitchSize::Small => (44, 24, 12, 18, 10),
        SwitchSize::Medium | SwitchSize::Large => (52, 32, 16, 24, 12),
    };
    let unchecked = if has_unchecked_icon {
        checked
    } else {
        unchecked
    };
    let usable_width = width - 4;
    let usable_height = height - 4;
    SwitchLayout {
        track_width: width,
        track_height: height,
        unchecked_thumb: unchecked,
        checked_thumb: checked,
        icon,
        unchecked_x: (usable_height - unchecked) / 2,
        unchecked_y: (usable_height - unchecked) / 2,
        checked_x: usable_width - checked - (usable_height - checked) / 2,
        checked_y: (usable_height - checked) / 2,
    }
}

/// A colour a switch paints: its accent (the given colour, else the primary
/// colour) or a theme role.
#[derive(Clone, Copy, Debug, PartialEq, Eq, Structural)]
pub enum SwitchRole {
    Accent,
    OnPrimary,
    SurfaceContainerHighest,
    Outline,
    OnSurface,
    Primary,
}

/// A switch colour at an opacity (percent).
#[derive(Clone, Copy, Debug, PartialEq, Eq, Structural)]
pub struct SwitchPaint {
    pub role: SwitchRole,
    pub opacity: u8,
}

/// The colours of a switch: its track, the track's border, the thumb, the
/// thumb's icon and the label.
#[derive(Clone, Copy, Debug, PartialEq, Eq, Structural)]
pub struct SwitchColors {
    pub track: SwitchPaint,
    pub border: SwitchPaint,
    pub thumb: SwitchPaint,
    pub icon: SwitchPaint,
    pub label: SwitchPaint,
}

/// A colour at full opacity.
pub open spec fn solid(role: SwitchRole) -> SwitchPaint {
    SwitchPaint { role, opacity: 100 }
}

/// The colours of a switch, `checked` or not, `disabled` or not: a checked
/// track and border take the accent and the thumb the on-primary colour; an
/// unchecked track is the highest surface container with outline border and
/// thumb; disabled, the track and border fade to 12% and the thumb to 38%,
/// and so does the label. The icon is primary when checked, the highest
/// surface container otherwise.
pub open spec fn switch_colors_spec(checked: bool, disabled: bool) -> SwitchColors {
    let (track, border, thumb) = if checked {
        (SwitchRole::Accent, SwitchRole::Accent, SwitchRole::OnPrimary)
    } else {
        (SwitchRole::SurfaceContainerHighest, SwitchRole::Outline, SwitchRole::Outline)
    };
    let (track_opacity, thumb_opacity): (u8, u8) = if disabled {
        (12, 38)
    } else {
        (100, 100)
    };
    SwitchColors {
        track: SwitchPaint { role: track, opacity: track_opacity },
        border: SwitchPaint { role: border, opacity: track_opacity },
        thumb: SwitchPaint { role: thumb, opacity: thumb_opacity },
        icon: solid(
            if checked {
                SwitchRole::Primary
            } else {
                SwitchRole::SurfaceContainerHighest
            },
        ),
        label: SwitchPaint { role: SwitchRole::OnSurface, opacity: thumb_opacity },
    }
}

/// The colours of a switch, `checked` or not, `disabled` or not.
pub fn switch_colors(checked: bool, disabled: bool) -> (colors: SwitchColors)
    ensures
        colors == switch_colors_spec(checked, disabled),
{
    let (track, border, thumb) = if checked {
        (SwitchRole::Accent, SwitchRole::Accent, SwitchRole::OnPrimary)
    } else {
        (SwitchRole::SurfaceContainerHighest, SwitchRole::Outline, SwitchRole::Outline)
    };
    let (track_opacity, thumb_opacity): (u8, u8) = if disabled {
        (12, 38)
    } else {
        (100, 100)
    };
    SwitchColors {
        track: SwitchPaint { role: track, opacity: track_opacity },
        border: SwitchPaint { role: border, opacity: track_opacity },
        thumb: SwitchPaint { role: thumb, opacity: thumb_opacity },
        icon: SwitchPaint {
            role: if checked {
                SwitchRole::Primary
            } else {
                SwitchRole::SurfaceContainerHighest
            },
            opacity: 100,
        },
        label: SwitchPaint { role: SwitchRole::OnSurface, opacity: thumb_opacity },
    }
}

/// The thumb stays inside the track in both states at every size, and the
/// checked thumb sits further along than the unchecked one.
pub proof fn law_thumb_stays_in_track(size: SwitchSize, has_unchecked_icon: bool)
    ensures
        ({
            let l = switch_layout_spec(size, has_unchecked_icon);
            &&& l.unchecked_x + l.unchecked_thumb <= l.track_width - 4
            &&& l.checked_x + l.checked_thumb <= l.track_width - 4
            &&& l.unchecked_y + l.unchecked_thumb <= l.track_height - 4
            &&& l.checked_y + l.checked_thumb <= l.track_height - 4
            &&& l.unchecked_x < l.checked_x
        }),
{
}

/// A disabled switch, checked or not, paints its track and border at 12%
/// and its thumb and label at 38%; an enabled one paints them at full
/// opacity. The icon is always at full opacity.
pub proof fn law_disabled_switch_fades(checked: bool, disabled: bool)
    ensures
        switch_colors_spec(checked, disabled).track.opacity == (if disabled {
            12u8
        } else {
            100u8
        }),
        switch_colors_spec(checked, disabled).border.opacity == (if disabled {
            12u8
        } else {
            100u8
        }),
        switch_colors_spec(checked, disabled).thumb.opacity == (if disabled {
            38u8
        } else {
            100u8
        }),
        switch_colors_spec(checked, disabled).label.opacity == (if disabled {
            38u8
        } else {
            100u8
        }),
        switch_colors_spec(checked, disabled).icon.opacity == 100,
        switch_colors_spec(checked, disabled).track.role == (if checked {
            SwitchRole::Accent
        } else {
            SwitchRole::SurfaceContainerHighest
        }),
        switch_colors_spec(checked, disabled).thumb.role == (if checked {
            SwitchRole::OnPrimary
        } else {
            SwitchRole::Outline
        }),
{
}

} // verus!
