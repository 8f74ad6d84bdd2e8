//! Icon button variants, sizes, widths and shapes, with their dimension,
//! width, corner and colour-role tokens.

use crate::button_tokens::ThemeRole;
use vstd::prelude::*;

verus! {

/// The container style of an icon button.
#[derive(Clone, Copy, Debug, PartialEq, Eq, Structural)]
pub enum IconButtonVariant {
    Standard,
    Filled,
    FilledTonal,
    Outlined,
}

impl Default for IconButtonVariant {
    fn default() -> (value: Self)
        ensures
            value == IconButtonVariant::Standard,
    {
        IconButtonVariant::Standard
    }
}

/// The size of an icon button.
#[derive(Clone, Copy, Debug, PartialEq, Eq, Structural)]
pub enum IconButtonSize {
    XXSmall,
    XSmall,
    Small,
    Medium,
    Large,
    XLarge,
}

impl Default for IconButtonSize {
    fn default() -> (value: Self)
        ensures
            value == IconButtonSize::Medium,
    {
        IconButtonSize::Medium
    }
}

/// The width of an icon button relative to its height.
#[derive(Clone, Copy, Debug, PartialEq, Eq, Structural)]
pub enum IconButtonWidth {
    Default,
    Narrow,
    Wide,
}

impl Default for IconButtonWidth {
    fn default() -> (value: Self)
        ensures
            value == IconButtonWidth::Default,
    {
        IconButtonWidth::Default
    }
}

/// The corner shape of an icon button.
#[derive(Clone, Copy, Debug, PartialEq, Eq, Structural)]
pub enum IconButtonShape {
    Round,
    Square,
}

impl Default for IconButtonShape {
    fn default() -> (value: Self)
        ensures
            value == IconButtonShape::Round,
    {
        IconButtonShape::Round
    }
}

/// Builder methods that pick an icon button's variant.
pub trait IconButtonVariants: Sized {
    /// This builder with its variant set to `variant`: what
    /// [`Self::icon_variant`] gives.
    spec fn icon_variant_spec(self, variant: IconButtonVariant) -> Self;

    /// Sets the variant.
    fn icon_variant(self, variant: IconButtonVariant) -> (builder: Self)
        ensures
            builder == self.icon_variant_spec(variant),
    ;

    fn standard(self) -> (builder: Self)
        ensures
            builder == self.icon_variant_spec(IconButtonVariant::Standard),
    {
        self.icon_variant(IconButtonVariant::Standard)
    }

    fn filled(self) -> (builder: Self)
        ensures
            builder == self.icon_variant_spec(IconButtonVariant::Filled),
    {
        self.icon_variant(IconButtonVariant::Filled)
    }

    fn filled_tonal(self) -> (builder: Self)
        ensures
            builder == self.icon_variant_spec(IconButtonVariant::FilledTonal),
    {
        self.icon_variant(IconButtonVariant::FilledTonal)
    }

    fn outlined(self) -> (builder: Self)
        ensures
            builder == self.icon_variant_spec(IconButtonVariant::Outlined),
    {
        self.icon_variant(IconButtonVariant::Outlined)
    }
}

/// The container and icon sizes of an icon button (device-independent pixels).
#[derive(Clone, Copy, Debug, PartialEq, Eq, Structural)]
pub struct IconButtonDimensions {
    pub container: u32,
    pub icon: u32,
}

/// The container and icon sizes of each icon button size.
pub open spec fn dimensions_spec(size: IconButtonSize) -> IconButtonDimensions {
    match size {
        IconButtonSize::XXSmall => IconButtonDimensions { container: 18, icon: 12 },
        IconButtonSize::XSmall => IconButtonDimensions { container: 32, icon: 16 },
        IconButtonSize::Small => IconButtonDimensions { container: 40, icon: 20 },
        IconButtonSize::Medium => IconButtonDimensions { container: 48, icon: 24 },
        IconButtonSize::Large => IconButtonDimensions { container: 56, icon: 28 },
        IconButtonSize::XLarge => IconButtonDimensions { container: 72, icon: 32 },
    }
}

/// The container and icon sizes of an icon button of `size`.
pub fn dimensions(size: IconButtonSize) -> (dimensions: IconButtonDimensions)
    ensures
        dimensions == dimensions_spec(size),
{
    match size {
        IconButtonSize::XXSmall => IconButtonDimensions { container: 18, icon: 12 },
        IconButtonSize::XSmall => IconButtonDimensions { container: 32, icon: 16 },
        IconButtonSize::Small => IconButtonDimensions { container: 40, icon: 20 },
        IconButtonSize::Medium => IconButtonDimensions { container: 48, icon: 24 },
        IconButtonSize::Large => IconButtonDimensions { container: 56, icon: 28 },
        IconButtonSize::XLarge => IconButtonDimensions { container: 72, icon: 32 },
    }
}

/// The container and icon sizes of an icon button of `size`.
pub fn icon_button_dimensions(size: IconButtonSize) -> (dimensions: IconButtonDimensions)
    ensures
        dimensions == dimensions_spec(size),
{
    dimensions(size)
}

/// The width of an icon button: its container size by default, else the
/// narrow or wide width of its size.
pub open spec fn resolve_width_spec(size: IconButtonSize, width: IconButtonWidth) -> u32 {
    match width {
        IconButtonWidth::Default => dimensions_spec(size).container,
        IconButtonWidth::Narrow => match size {
            IconButtonSize::XXSmall => 14,
            IconButtonSize::XSmall => 24,
            IconButtonSize::Small => 30,
            IconButtonSize::Medium => 36,
            IconButtonSize::Large => 42,
            IconButtonSize::XLarge => 54,
        },
        IconButtonWidth::Wide => match size {
            IconButtonSize::XXSmall => 24,
            IconButtonSize::XSmall => 42,
            IconButtonSize::Small => 54,
            IconButtonSize::Medium => 64,
            IconButtonSize::Large => 76,
            IconButtonSize::XLarge => 96,
        },
    }
}

/// The width of an icon button of `size` and `width`.
pub fn resolve_width(size: IconButtonSize, width: IconButtonWidth) -> (resolved: u32)
    ensures
        resolved == resolve_width_spec(size, width),
{
    let container = dimensions(size).container;
    match width {
        IconButtonWidth::Default => container,
        IconButtonWidth::Narrow => match size {
            IconButtonSize::XXSmall => 14,
            IconButtonSize::XSmall => 24,
            IconButtonSize::Small => 30,
            IconButtonSize::Medium => 36,
            IconButtonSize::Large => 42,
            IconButtonSize::XLarge => 54,
        },
        IconButtonWidth::Wide => match size {
            IconButtonSize::XXSmall => 24,
            IconButtonSize::XSmall => 42,
            IconButtonSize::Small => 54,
            IconButtonSize::Medium => 64,
            IconButtonSize::Large => 76,
            IconButtonSize::XLarge => 96,
        },
    }
}

/// The theme roles an icon button paints its container, content and border in.
#[derive(Clone, Copy, Debug, PartialEq, Eq, Structural)]
pub struct IconButtonColors {
    pub container: ThemeRole,
    pub content: ThemeRole,
    pub border: ThemeRole,
}

/// The roles of each variant, unchecked and checked: a checked standard or
/// outlined button takes the primary container, a checked tonal one the
/// secondary colour, and a filled one looks the same either way.
pub open spec fn colors_spec(variant: IconButtonVariant, checked: bool) -> IconButtonColors {
    match variant {
        IconButtonVariant::Standard => if checked {
            IconButtonColors {
                container: ThemeRole::PrimaryContainer,
                content: ThemeRole::OnPrimaryContainer,
                border: ThemeRole::Transparent,
            }
        } else {
            IconButtonColors {
                container: ThemeRole::Transparent,
                content: ThemeRole::OnSurfaceVariant,
                border: ThemeRole::Transparent,
            }
        },
        IconButtonVariant::Filled => IconButtonColors {
            container: ThemeRole::Primary,
            content: ThemeRole::OnPrimary,
            border: ThemeRole::Primary,
        },
        IconButtonVariant::FilledTonal => if checked {
            IconButtonColors {
                container: ThemeRole::Secondary,
                content: ThemeRole::OnSecondary,
                border: ThemeRole::Secondary,
            }
        } else {
            IconButtonColors {
                container: ThemeRole::SecondaryContainer,
                content: ThemeRole::OnSecondaryContainer,
                border: ThemeRole::SecondaryContainer,
            }
        },
        IconButtonVariant::Outlined => if checked {
            IconButtonColors {
                container: ThemeRole::PrimaryContainer,
                content: ThemeRole::OnPrimaryContainer,
                border: ThemeRole::Primary,
            }
        } else {
            IconButtonColors {
                container: ThemeRole::Transparent,
                content: ThemeRole::OnSurfaceVariant,
                border: ThemeRole::OutlineVariant,
            }
        },
    }
}

/// The roles an icon button of `variant` is painted in, `checked` or not.
pub fn colors(variant: IconButtonVariant, checked: bool) -> (colors: IconButtonColors)
    ensures
        colors == colors_spec(variant, checked),
{
    match (variant, checked) {
        (IconButtonVariant::Standard, false) => IconButtonColors {
            container: ThemeRole::Transparent,
            content: ThemeRole::OnSurfaceVariant,
            border: ThemeRole::Transparent,
        },
        (IconButtonVariant::Standard, true) => IconButtonColors {
            container: ThemeRole::PrimaryContainer,
            content: ThemeRole::OnPrimaryContainer,
            border: ThemeRole::Transparent,
        },
        (IconButtonVariant::Filled, _) => IconButtonColors {
            container: ThemeRole::Primary,
            content: ThemeRole::OnPrimary,
            border: ThemeRole::Primary,
        },
        (IconButtonVariant::FilledTonal, false) => IconButtonColors {
            container: ThemeRole::SecondaryContainer,
            content: ThemeRole::OnSecondaryContainer,
            border: ThemeRole::SecondaryContainer,
        },
        (IconButtonVariant::FilledTonal, true) => IconButtonColors {
            container: ThemeRole::Secondary,
            content: ThemeRole::OnSecondary,
            border: ThemeRole::Secondary,
        },
        (IconButtonVariant::Outlined, false) => IconButtonColors {
            container: ThemeRole::Transparent,
            content: ThemeRole::OnSurfaceVariant,
            border: ThemeRole::OutlineVariant,
        },
        (IconButtonVariant::Outlined, true) => IconButtonColors {
            container: ThemeRole::PrimaryContainer,
            content: ThemeRole::OnPrimaryContainer,
            border: ThemeRole::Primary,
        },
    }
}

/// Narrow icon buttons are narrower and wide ones wider than their
/// container, at every size.
pub proof fn law_widths_bracket_the_container(size: IconButtonSize)
    ensures
        resolve_width_spec(size, IconButtonWidth::Narrow) < dimensions_spec(size).container,
        dimensions_spec(size).container < resolve_width_spec(size, IconButtonWidth::Wide),
        resolve_width_spec(size, IconButtonWidth::Default) == dimensions_spec(size).container,
        dimensions_spec(size).icon < dimensions_spec(size).container,
{
}

} // verus!
