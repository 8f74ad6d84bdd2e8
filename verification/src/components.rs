//! The variants and placement options of the simpler components, and the
//! paint and metrics of chips, toggle buttons and checkboxes.

use vstd::prelude::*;

verus! {

/// The container style of a card.
#[derive(Clone, Copy, Debug, PartialEq, Eq, Structural)]
pub enum CardVariant {
    Filled,
    Elevated,
    Outlined,
}

impl Default for CardVariant {
    fn default() -> (value: Self)
        ensures
            value == CardVariant::Filled,
    {
        CardVariant::Filled
    }
}

/// The role of a chip.
#[derive(Clone, Copy, Debug, PartialEq, Eq, Structural)]
pub enum ChipVariant {
    Assist,
    Filter,
    Input,
    Suggestion,
}

impl Default for ChipVariant {
    fn default() -> (value: Self)
        ensures
            value == ChipVariant::Assist,
    {
        ChipVariant::Assist
    }
}

/// The container style of a chip.
#[derive(Clone, Copy, Debug, PartialEq, Eq, Structural)]
pub enum ChipStyle {
    Flat,
    Elevated,
}

impl Default for ChipStyle {
    fn default() -> (value: Self)
        ensures
            value == ChipStyle::Flat,
    {
        ChipStyle::Flat
    }
}

/// The container style of a toggle button.
#[derive(Clone, Copy, Debug, PartialEq, Eq, Structural)]
pub enum ToggleButtonVariant {
    Filled,
    Elevated,
    Outlined,
    Tonal,
}

impl Default for ToggleButtonVariant {
    fn default() -> (value: Self)
        ensures
            value == ToggleButtonVariant::Filled,
    {
        ToggleButtonVariant::Filled
    }
}

/// The side of the window a side panel docks to.
#[derive(Clone, Copy, Debug, PartialEq, Eq, Structural)]
pub enum SidePanelPosition {
    Left,
    Right,
}

impl Default for SidePanelPosition {
    fn default() -> (value: Self)
        ensures
            value == SidePanelPosition::Right,
    {
        SidePanelPosition::Right
    }
}

/// Where a navigation rail places its items.
#[derive(Clone, Copy, Debug, PartialEq, Eq, Structural)]
pub enum NavigationRailArrangement {
    Top,
    Center,
    Bottom,
}

impl Default for NavigationRailArrangement {
    fn default() -> (value: Self)
        ensures
            value == NavigationRailArrangement::Top,
    {
        NavigationRailArrangement::Top
    }
}

/// The direction a floating toolbar lays out its actions.
#[derive(Clone, Copy, Debug, PartialEq, Eq, Structural)]
pub enum FloatingToolbarOrientation {
    Horizontal,
    Vertical,
}

impl Default for FloatingToolbarOrientation {
    fn default() -> (value: Self)
        ensures
            value == FloatingToolbarOrientation::Horizontal,
    {
        FloatingToolbarOrientation::Horizontal
    }
}

/// The colour style of a floating toolbar.
#[derive(Clone, Copy, Debug, PartialEq, Eq, Structural)]
pub enum FloatingToolbarStyle {
    Standard,
    Vibrant,
}

impl Default for FloatingToolbarStyle {
    fn default() -> (value: Self)
        ensures
            value == FloatingToolbarStyle::Standard,
    {
        FloatingToolbarStyle::Standard
    }
}

/// The line style of a separator.
#[derive(Clone, Copy, Debug, PartialEq, Eq, Structural)]
pub enum SeparatorStyle {
    Solid,
    Dashed,
}

impl Default for SeparatorStyle {
    fn default() -> (value: Self)
        ensures
            value == SeparatorStyle::Solid,
    {
        SeparatorStyle::Solid
    }
}

/// What the selection indicator of a tab bar spans.
#[derive(Clone, Copy, Debug, PartialEq, Eq, Structural)]
pub enum IndicatorAlignment {
    Container,
    Content,
}

impl Default for IndicatorAlignment {
    fn default() -> (value: Self)
        ensures
            value == IndicatorAlignment::Container,
    {
        IndicatorAlignment::Container
    }
}

/// A theme colour a chip or toggle button paints with.
#[derive(Clone, Copy, Debug, PartialEq, Eq, Structural)]
pub enum SurfaceRole {
    Surface,
    SurfaceContainer,
    SurfaceContainerLow,
    SurfaceContainerHighest,
    OnSurface,
    OnSurfaceVariant,
    Outline,
    Primary,
    OnPrimary,
    SecondaryContainer,
    OnSecondaryContainer,
}

/// A theme colour at an opacity (percent).
#[derive(Clone, Copy, Debug, PartialEq, Eq, Structural)]
pub struct RoleAt {
    pub role: SurfaceRole,
    pub opacity: u8,
}

/// The container, border and content colours of a chip or toggle button,
/// and whether it casts a shadow.
#[derive(Clone, Copy, Debug, PartialEq, Eq, Structural)]
pub struct ControlPaint {
    pub container: RoleAt,
    pub border: RoleAt,
    pub content: RoleAt,
    pub shadow: bool,
}

/// The semantic sizes of a chip or toggle button.
#[derive(Clone, Copy, Debug, PartialEq, Eq, Structural)]
pub enum ControlSize {
    XSmall,
    Small,
    Medium,
    Large,
}

/// The height, horizontal padding, font size and icon size of a chip or
/// toggle button (device-independent pixels).
#[derive(Clone, Copy, Debug, PartialEq, Eq, Structural)]
pub struct ControlMetrics {
    pub height: u32,
    pub padding_x: u32,
    pub font_size: u32,
    pub icon_size: u32,
}

/// A colour at full opacity.
pub open spec fn full(role: SurfaceRole) -> RoleAt {
    RoleAt { role, opacity: 100 }
}

/// The disabled look shared by chips and toggle buttons: an on-surface
/// container at 12%, an outline border at 12% and on-surface content at 38%.
pub open spec fn disabled_paint() -> ControlPaint {
    ControlPaint {
        container: RoleAt { role: SurfaceRole::OnSurface, opacity: 12 },
        border: RoleAt { role: SurfaceRole::Outline, opacity: 12 },
        content: RoleAt { role: SurfaceRole::OnSurface, opacity: 38 },
        shadow: false,
    }
}

/// The paint of a toggle button: disabled, the shared disabled look; checked,
/// primary (filled and elevated, the elevated one with a shadow) or
/// secondary container (outlined and tonal); unchecked, its variant's
/// resting surface.
pub open spec fn toggle_button_paint_spec(variant: ToggleButtonVariant, checked: bool, disabled: bool) -> ControlPaint {
    if disabled {
        disabled_paint()
    } else if checked {
        match variant {
            ToggleButtonVariant::Filled | ToggleButtonVariant::Elevated => ControlPaint {
                container: full(SurfaceRole::Primary),
                border: full(SurfaceRole::Primary),
                content: full(SurfaceRole::OnPrimary),
                shadow: variant == ToggleButtonVariant::Elevated,
            },
            ToggleButtonVariant::Outlined | ToggleButtonVariant::Tonal => ControlPaint {
                container: full(SurfaceRole::SecondaryContainer),
                border: full(SurfaceRole::SecondaryContainer),
                content: full(SurfaceRole::OnSecondaryContainer),
                shadow: false,
            },
        }
    } else {
        match variant {
            ToggleButtonVariant::Filled => ControlPaint {
                container: full(SurfaceRole::SurfaceContainerHighest),
                border: full(SurfaceRole::SurfaceContainerHighest),
                content: full(SurfaceRole::OnSurfaceVariant),
                shadow: false,
            },
            ToggleButtonVariant::Elevated => ControlPaint {
                container: full(SurfaceRole::SurfaceContainerLow),
                border: full(SurfaceRole::SurfaceContainerLow),
                content: full(SurfaceRole::OnSurface),
                shadow: true,
            },
            ToggleButtonVariant::Outlined => ControlPaint {
                container: full(SurfaceRole::Surface),
                border: full(SurfaceRole::Outline),
                content: full(SurfaceRole::OnSurfaceVariant),
                shadow: false,
            },
            ToggleButtonVariant::Tonal => ControlPaint {
                container: full(SurfaceRole::SurfaceContainer),
                border: full(SurfaceRole::SurfaceContainer),
                content: full(SurfaceRole::OnSurfaceVariant),
                shadow: false,
            },
        }
    }
}

fn at(role: SurfaceRole, opacity: u8) -> (paint: RoleAt)
    ensures
        paint == (RoleAt { role, opacity }),
{
    RoleAt { role, opacity }
}

fn disabled_look() -> (paint: ControlPaint)
    ensures
        paint == disabled_paint(),
{
    ControlPaint {
        container: at(SurfaceRole::OnSurface, 12),
        border: at(SurfaceRole::Outline, 12),
        content: at(SurfaceRole::OnSurface, 38),
        shadow: false,
    }
}

/// The paint of a toggle button of `variant`, `checked` or not, `disabled`
/// or not.
pub fn toggle_button_paint(variant: ToggleButtonVariant, checked: bool, disabled: bool) -> (paint: ControlPaint)
    ensures
        paint == toggle_button_paint_spec(variant, checked, disabled),
{
    if disabled {
        return disabled_look();
    }
    let (container, border, content, shadow) = if checked {
        match variant {
            ToggleButtonVariant::Filled | ToggleButtonVariant::Elevated => (
                SurfaceRole::Primary,
                SurfaceRole::Primary,
                SurfaceRole::OnPrimary,
                variant == ToggleButtonVariant::Elevated,
            ),
            ToggleButtonVariant::Outlined | ToggleButtonVariant::Tonal => (
                SurfaceRole::SecondaryContainer,
                SurfaceRole::SecondaryContainer,
                SurfaceRole::OnSecondaryContainer,
                false,
            ),
        }
    } else {
        match variant {
            ToggleButtonVariant::Filled => (
                SurfaceRole::SurfaceContainerHighest,
                SurfaceRole::SurfaceContainerHighest,
                SurfaceRole::OnSurfaceVariant,
                false,
            ),
            ToggleButtonVariant::Elevated => (
                SurfaceRole::SurfaceContainerLow,
                SurfaceRole::SurfaceContainerLow,
                SurfaceRole::OnSurface,
                true,
            ),
            ToggleButtonVariant::Outlined => (
                SurfaceRole::Surface,
                SurfaceRole::Outline,
                SurfaceRole::OnSurfaceVariant,
                false,
            ),
            ToggleButtonVariant::Tonal => (
                SurfaceRole::SurfaceContainer,
                SurfaceRole::SurfaceContainer,
                SurfaceRole::OnSurfaceVariant,
                false,
            ),
        }
    };
    ControlPaint { container: at(container, 100), border: at(border, 100), content: at(content, 100), shadow }
}

/// The metrics of a toggle button of each semantic size.
pub open spec fn toggle_button_metrics_spec(size: ControlSize) -> ControlMetrics {
    match size {
        ControlSize::XSmall => ControlMetrics { height: 28, padding_x: 10, font_size: 11, icon_size: 14 },
        ControlSize::Small => ControlMetrics { height: 32, padding_x: 12, font_size: 12, icon_size: 16 },
        ControlSize::Medium => ControlMetrics { height: 40, padding_x: 16, font_size: 13, icon_size: 18 },
        ControlSize::Large => ControlMetrics { height: 48, padding_x: 20, font_size: 15, icon_size: 20 },
    }
}

/// The metrics of a toggle button of `size`.
pub fn toggle_button_metrics(size: ControlSize) -> (metrics: ControlMetrics)
    ensures
        metrics == toggle_button_metrics_spec(size),
{
    match size {
        ControlSize::XSmall => ControlMetrics { height: 28, padding_x: 10, font_size: 11, icon_size: 14 },
        ControlSize::Small => ControlMetrics { height: 32, padding_x: 12, font_size: 12, icon_size: 16 },
        ControlSize::Medium => ControlMetrics { height: 40, padding_x: 16, font_size: 13, icon_size: 18 },
        ControlSize::Large => ControlMetrics { height: 48, padding_x: 20, font_size: 15, icon_size: 20 },
    }
}

/// The paint of a chip: disabled, the shared disabled look; selected, the
/// secondary container; elevated, the low surface container with a shadow;
/// otherwise the surface with a half-opaque outline.
pub open spec fn chip_paint_spec(selected: bool, elevated: bool, disabled: bool) -> ControlPaint {
    if disabled {
        disabled_paint()
    } else if selected {
        ControlPaint {
            container: full(SurfaceRole::SecondaryContainer),
            border: full(SurfaceRole::SecondaryContainer),
            content: full(SurfaceRole::OnSecondaryContainer),
            shadow: elevated,
        }
    } else if elevated {
        ControlPaint {
            container: full(SurfaceRole::SurfaceContainerLow),
            border: full(SurfaceRole::SurfaceContainerLow),
            content: full(SurfaceRole::OnSurface),
            shadow: true,
        }
    } else {
        ControlPaint {
            container: full(SurfaceRole::Surface),
            border: RoleAt { role: SurfaceRole::Outline, opacity: 50 },
            content: full(SurfaceRole::OnSurfaceVariant),
            shadow: false,
        }
    }
}

/// The paint of a chip, `selected` or not, `elevated` or not, `disabled` or not.
pub fn chip_paint(selected: bool, elevated: bool, disabled: bool) -> (paint: ControlPaint)
    ensures
        paint == chip_paint_spec(selected, elevated, disabled),
{
    if disabled {
        disabled_look()
    } else if selected {
        ControlPaint {
            container: at(SurfaceRole::SecondaryContainer, 100),
            border: at(SurfaceRole::SecondaryContainer, 100),
            content: at(SurfaceRole::OnSecondaryContainer, 100),
            shadow: elevated,
        }
    } else if elevated {
        ControlPaint {
            container: at(SurfaceRole::SurfaceContainerLow, 100),
            border: at(SurfaceRole::SurfaceContainerLow, 100),
            content: at(SurfaceRole::OnSurface, 100),
            shadow: true,
        }
    } else {
        ControlPaint {
            container: at(SurfaceRole::Surface, 100),
            border: at(SurfaceRole::Outline, 50),
            content: at(SurfaceRole::OnSurfaceVariant, 100),
            shadow: false,
        }
    }
}

/// The metrics of a chip of each semantic size.
pub open spec fn chip_metrics_spec(size: ControlSize) -> ControlMetrics {
    match size {
        ControlSize::XSmall => ControlMetrics { height: 24, padding_x: 8, font_size: 11, icon_size: 14 },
        ControlSize::Small => ControlMetrics { height: 28, padding_x: 10, font_size: 12, icon_size: 16 },
        ControlSize::Medium => ControlMetrics { height: 32, padding_x: 12, font_size: 13, icon_size: 18 },
        ControlSize::Large => ControlMetrics { height: 38, padding_x: 16, font_size: 14, icon_size: 20 },
    }
}

/// The metrics of a chip of `size`.
pub fn chip_metrics(size: ControlSize) -> (metrics: ControlMetrics)
    ensures
        metrics == chip_metrics_spec(size),
{
    match size {
        ControlSize::XSmall => ControlMetrics { height: 24, padding_x: 8, font_size: 11, icon_size: 14 },
        ControlSize::Small => ControlMetrics { height: 28, padding_x: 10, font_size: 12, icon_size: 16 },
        ControlSize::Medium => ControlMetrics { height: 32, padding_x: 12, font_size: 13, icon_size: 18 },
        ControlSize::Large => ControlMetrics { height: 38, padding_x: 16, font_size: 14, icon_size: 20 },
    }
}

/// Which icons a chip adds by itself: a leading check mark on a selected
/// filter chip, and a trailing close button on an input chip that can be
/// dismissed.
pub fn chip_automatic_icons(variant: ChipVariant, selected: bool, dismissible: bool) -> (icons: (bool, bool))
    ensures
        icons == (variant == ChipVariant::Filter && selected, variant == ChipVariant::Input && dismissible),
{
    (variant == ChipVariant::Filter && selected, variant == ChipVariant::Input && dismissible)
}

/// The colours of a checkbox: its box's border and fill, its check mark
/// and its label, and whether the check mark is drawn.
#[derive(Clone, Copy, Debug, PartialEq, Eq, Structural)]
pub struct CheckboxPaint {
    pub border: RoleAt,
    pub fill: RoleAt,
    pub check: RoleAt,
    pub label: RoleAt,
    pub shows_check: bool,
}

/// The paint of a checkbox: a checked box is primary and an unchecked one
/// the highest surface container, half transparent when disabled (its fill
/// too when checked); the check mark is on-primary, half transparent when
/// disabled, and drawn only when checked; the label is on-surface, or
/// on-surface-variant when disabled.
pub open spec fn checkbox_paint_spec(checked: bool, disabled: bool) -> CheckboxPaint {
    let tone = if checked {
        SurfaceRole::Primary
    } else {
        SurfaceRole::SurfaceContainerHighest
    };
    let faded: u8 = if disabled {
        50
    } else {
        100
    };
    CheckboxPaint {
        border: RoleAt { role: tone, opacity: faded },
        fill: if !checked {
            full(SurfaceRole::SurfaceContainerHighest)
        } else {
            RoleAt { role: SurfaceRole::Primary, opacity: faded }
        },
        check: RoleAt { role: SurfaceRole::OnPrimary, opacity: faded },
        label: full(
            if disabled {
                SurfaceRole::OnSurfaceVariant
            } else {
                SurfaceRole::OnSurface
            },
        ),
        shows_check: checked,
    }
}

/// The paint of a checkbox, `checked` or not, `disabled` or not.
pub fn checkbox_paint(checked: bool, disabled: bool) -> (paint: CheckboxPaint)
    ensures
        paint == checkbox_paint_spec(checked, disabled),
{
    let tone = if checked {
        SurfaceRole::Primary
    } else {
        SurfaceRole::SurfaceContainerHighest
    };
    let faded: u8 = if disabled {
        50
    } else {
        100
    };
    CheckboxPaint {
        border: at(tone, faded),
        fill: if !checked {
            at(SurfaceRole::SurfaceContainerHighest, 100)
        } else {
            at(SurfaceRole::Primary, faded)
        },
        check: at(SurfaceRole::OnPrimary, faded),
        label: at(
            if disabled {
                SurfaceRole::OnSurfaceVariant
            } else {
                SurfaceRole::OnSurface
            },
            100,
        ),
        shows_check: checked,
    }
}

/// Disabled chips and toggle buttons all look the same and cast no shadow,
/// whatever their variant and state.
pub proof fn law_disabled_controls_look_alike(
    variant: ToggleButtonVariant,
    checked: bool,
    selected: bool,
    elevated: bool,
)
    ensures
        toggle_button_paint_spec(variant, checked, true) == chip_paint_spec(selected, elevated, true),
        !toggle_button_paint_spec(variant, checked, true).shadow,
{
}

} // verus!
