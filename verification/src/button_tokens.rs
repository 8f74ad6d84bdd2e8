//! Material 3 Expressive button tokens: the size scale, the metric and
//! shape rows of each step, the colour roles and opacities of each variant,
//! and how a button is painted in each interaction state.
//!
//! Lengths are in device-independent pixels; opacities are percentages.

use crate::button::ButtonVariant;
use vstd::prelude::*;

verus! {

/// The five steps of the button size scale.
#[derive(Clone, Copy, Debug, PartialEq, Eq, Structural)]
pub enum ButtonScale {
    XSmall,
    Small,
    Medium,
    Large,
    XLarge,
}

/// The metrics of a button at one step of the scale.
#[derive(Clone, Copy, Debug, PartialEq, Eq, Structural)]
pub struct ButtonM3eRow {
    pub height: u32,
    pub horizontal: u32,
    pub vertical: u32,
    pub icon: u32,
    pub gap: u32,
    pub outline: u32,
}

/// The metrics of an icon button at one step of the scale.
#[derive(Clone, Copy, Debug, PartialEq, Eq, Structural)]
pub struct IconButtonM3eRow {
    pub container: u32,
    pub icon: u32,
    pub square: u32,
    pub pressed: u32,
}

/// The corner radii of a button at one step of the scale.
#[derive(Clone, Copy, Debug, PartialEq, Eq, Structural)]
pub struct ButtonShapeRow {
    pub square: u32,
    pub pressed: u32,
}

/// A colour role of the theme.
#[derive(Clone, Copy, Debug, PartialEq, Eq, Structural)]
pub enum ThemeRole {
    Transparent,
    Primary,
    OnPrimary,
    PrimaryContainer,
    OnPrimaryContainer,
    Secondary,
    OnSecondary,
    SecondaryContainer,
    OnSecondaryContainer,
    SurfaceContainerLow,
    OnSurface,
    OnSurfaceVariant,
    Outline,
    OutlineVariant,
    SurfaceVariant,
}

/// The colour roles of a button's container, content and border, with the
/// opacity (percent) each is painted at.
#[derive(Clone, Copy, Debug, PartialEq, Eq, Structural)]
pub struct ButtonSemanticState {
    pub container: ThemeRole,
    pub content: ThemeRole,
    pub border: ThemeRole,
    pub container_opacity: u8,
    pub content_opacity: u8,
    pub border_opacity: u8,
}

/// The paint of a button variant: its resting, selected and disabled
/// states, the role of its state layer and its elevation in each state.
#[derive(Clone, Copy, Debug, PartialEq, Eq, Structural)]
pub struct ButtonSemanticTable {
    pub base: ButtonSemanticState,
    pub selected: ButtonSemanticState,
    pub disabled: ButtonSemanticState,
    pub state_layer: ThemeRole,
    pub elevation_rest: u8,
    pub elevation_hover: u8,
    pub elevation_focus: u8,
    pub elevation_pressed: u8,
    pub elevation_disabled: u8,
}

/// The height of a step of the scale.
pub open spec fn canonical_height_spec(scale: ButtonScale) -> u32 {
    match scale {
        ButtonScale::XSmall => 32,
        ButtonScale::Small => 40,
        ButtonScale::Medium => 56,
        ButtonScale::Large => 96,
        ButtonScale::XLarge => 136,
    }
}

/// The height of a step of the scale.
pub fn canonical_height(scale: ButtonScale) -> (height: u32)
    ensures
        height == canonical_height_spec(scale),
{
    match scale {
        ButtonScale::XSmall => 32,
        ButtonScale::Small => 40,
        ButtonScale::Medium => 56,
        ButtonScale::Large => 96,
        ButtonScale::XLarge => 136,
    }
}

/// The button metrics of a step of the scale.
pub open spec fn button_m3e_row_spec(scale: ButtonScale) -> ButtonM3eRow {
    match scale {
        ButtonScale::XSmall => ButtonM3eRow { height: 32, horizontal: 12, vertical: 6, icon: 20, gap: 4, outline: 1 },
        ButtonScale::Small => ButtonM3eRow { height: 40, horizontal: 16, vertical: 10, icon: 20, gap: 8, outline: 1 },
        ButtonScale::Medium => ButtonM3eRow { height: 56, horizontal: 24, vertical: 16, icon: 24, gap: 8, outline: 1 },
        ButtonScale::Large => ButtonM3eRow { height: 96, horizontal: 48, vertical: 32, icon: 32, gap: 12, outline: 2 },
        ButtonScale::XLarge => ButtonM3eRow { height: 136, horizontal: 64, vertical: 48, icon: 40, gap: 16, outline: 3 },
    }
}

/// The button metrics of a step of the scale.
pub fn button_m3e_row(scale: ButtonScale) -> (row: ButtonM3eRow)
    ensures
        row == button_m3e_row_spec(scale),
{
    match scale {
        ButtonScale::XSmall => ButtonM3eRow { height: 32, horizontal: 12, vertical: 6, icon: 20, gap: 4, outline: 1 },
        ButtonScale::Small => ButtonM3eRow { height: 40, horizontal: 16, vertical: 10, icon: 20, gap: 8, outline: 1 },
        ButtonScale::Medium => ButtonM3eRow { height: 56, horizontal: 24, vertical: 16, icon: 24, gap: 8, outline: 1 },
        ButtonScale::Large => ButtonM3eRow { height: 96, horizontal: 48, vertical: 32, icon: 32, gap: 12, outline: 2 },
        ButtonScale::XLarge => ButtonM3eRow { height: 136, horizontal: 64, vertical: 48, icon: 40, gap: 16, outline: 3 },
    }
}

/// The icon button metrics of a step of the scale.
pub open spec fn icon_button_m3e_row_spec(scale: ButtonScale) -> IconButtonM3eRow {
    match scale {
        ButtonScale::XSmall => IconButtonM3eRow { container: 32, icon: 20, square: 12, pressed: 8 },
        ButtonScale::Small => IconButtonM3eRow { container: 40, icon: 24, square: 12, pressed: 8 },
        ButtonScale::Medium => IconButtonM3eRow { container: 56, icon: 24, square: 16, pressed: 12 },
        ButtonScale::Large => IconButtonM3eRow { container: 96, icon: 32, square: 28, pressed: 16 },
        ButtonScale::XLarge => IconButtonM3eRow { container: 136, icon: 40, square: 28, pressed: 16 },
    }
}

/// The icon button metrics of a step of the scale.
pub fn icon_button_m3e_row(scale: ButtonScale) -> (row: IconButtonM3eRow)
    ensures
        row == icon_button_m3e_row_spec(scale),
{
    match scale {
        ButtonScale::XSmall => IconButtonM3eRow { container: 32, icon: 20, square: 12, pressed: 8 },
        ButtonScale::Small => IconButtonM3eRow { container: 40, icon: 24, square: 12, pressed: 8 },
        ButtonScale::Medium => IconButtonM3eRow { container: 56, icon: 24, square: 16, pressed: 12 },
        ButtonScale::Large => IconButtonM3eRow { container: 96, icon: 32, square: 28, pressed: 16 },
        ButtonScale::XLarge => IconButtonM3eRow { container: 136, icon: 40, square: 28, pressed: 16 },
    }
}

/// The corner radii of a step of the scale.
pub open spec fn button_shape_row_spec(scale: ButtonScale) -> ButtonShapeRow {
    match scale {
        ButtonScale::XSmall => ButtonShapeRow { square: 12, pressed: 8 },
        ButtonScale::Small => ButtonShapeRow { square: 12, pressed: 8 },
        ButtonScale::Medium => ButtonShapeRow { square: 16, pressed: 12 },
        ButtonScale::Large => ButtonShapeRow { square: 28, pressed: 16 },
        ButtonScale::XLarge => ButtonShapeRow { square: 28, pressed: 16 },
    }
}

/// The corner radii of a step of the scale.
pub fn button_shape_row(scale: ButtonScale) -> (row: ButtonShapeRow)
    ensures
        row == button_shape_row_spec(scale),
{
    match scale {
        ButtonScale::XSmall => ButtonShapeRow { square: 12, pressed: 8 },
        ButtonScale::Small => ButtonShapeRow { square: 12, pressed: 8 },
        ButtonScale::Medium => ButtonShapeRow { square: 16, pressed: 12 },
        ButtonScale::Large => ButtonShapeRow { square: 28, pressed: 16 },
        ButtonScale::XLarge => ButtonShapeRow { square: 28, pressed: 16 },
    }
}

/// The three roles painted at full opacity.
pub open spec fn full_opacity(container: ThemeRole, content: ThemeRole, border: ThemeRole) -> ButtonSemanticState {
    ButtonSemanticState {
        container,
        content,
        border,
        container_opacity: 100,
        content_opacity: 100,
        border_opacity: 100,
    }
}

/// The three roles painted at full opacity.
fn state(container: ThemeRole, content: ThemeRole, border: ThemeRole) -> (state: ButtonSemanticState)
    ensures
        state == full_opacity(container, content, border),
{
    ButtonSemanticState {
        container,
        content,
        border,
        container_opacity: 100,
        content_opacity: 100,
        border_opacity: 100,
    }
}

/// The paint of each button variant.
pub open spec fn button_semantic_table_spec(variant: ButtonVariant) -> ButtonSemanticTable {
    match variant {
        ButtonVariant::Filled => ButtonSemanticTable {
                base: full_opacity(ThemeRole::Primary, ThemeRole::OnPrimary, ThemeRole::Transparent),
                selected: full_opacity(ThemeRole::Primary, ThemeRole::OnPrimary, ThemeRole::Transparent),
                disabled: ButtonSemanticState { container: ThemeRole::OnSurface, content: ThemeRole::OnSurfaceVariant, border: ThemeRole::Transparent, container_opacity: 10, content_opacity: 38, border_opacity: 0 },
                state_layer: ThemeRole::OnPrimary,
                elevation_rest: 0,
                elevation_hover: 1,
                elevation_focus: 0,
                elevation_pressed: 0,
                elevation_disabled: 0,
            },
        ButtonVariant::Elevated => ButtonSemanticTable {
                base: full_opacity(ThemeRole::SurfaceContainerLow, ThemeRole::Primary, ThemeRole::Transparent),
                selected: full_opacity(ThemeRole::SurfaceContainerLow, ThemeRole::Primary, ThemeRole::Transparent),
                disabled: ButtonSemanticState { container: ThemeRole::OnSurface, content: ThemeRole::OnSurfaceVariant, border: ThemeRole::Transparent, container_opacity: 10, content_opacity: 38, border_opacity: 0 },
                state_layer: ThemeRole::Primary,
                elevation_rest: 1,
                elevation_hover: 2,
                elevation_focus: 1,
                elevation_pressed: 1,
                elevation_disabled: 0,
            },
        ButtonVariant::FilledTonal => ButtonSemanticTable {
                base: full_opacity(ThemeRole::SecondaryContainer, ThemeRole::OnSecondaryContainer, ThemeRole::Transparent),
                selected: full_opacity(ThemeRole::SecondaryContainer, ThemeRole::OnSecondaryContainer, ThemeRole::Transparent),
                disabled: ButtonSemanticState { container: ThemeRole::OnSurface, content: ThemeRole::OnSurface, border: ThemeRole::Transparent, container_opacity: 12, content_opacity: 38, border_opacity: 0 },
                state_layer: ThemeRole::OnSecondaryContainer,
                elevation_rest: 0,
                elevation_hover: 1,
                elevation_focus: 0,
                elevation_pressed: 0,
                elevation_disabled: 0,
            },
        ButtonVariant::Outlined => ButtonSemanticTable {
                base: full_opacity(ThemeRole::Transparent, ThemeRole::OnSurfaceVariant, ThemeRole::OutlineVariant),
                selected: full_opacity(ThemeRole::Transparent, ThemeRole::OnSurfaceVariant, ThemeRole::OutlineVariant),
                disabled: ButtonSemanticState { container: ThemeRole::Transparent, content: ThemeRole::OnSurfaceVariant, border: ThemeRole::OutlineVariant, container_opacity: 100, content_opacity: 38, border_opacity: 10 },
                state_layer: ThemeRole::OnSurfaceVariant,
                elevation_rest: 0,
                elevation_hover: 0,
                elevation_focus: 0,
                elevation_pressed: 0,
                elevation_disabled: 0,
            },
        ButtonVariant::Text => ButtonSemanticTable {
                base: full_opacity(ThemeRole::Transparent, ThemeRole::Primary, ThemeRole::Transparent),
                selected: full_opacity(ThemeRole::Transparent, ThemeRole::Primary, ThemeRole::Transparent),
                disabled: ButtonSemanticState { container: ThemeRole::Transparent, content: ThemeRole::OnSurfaceVariant, border: ThemeRole::Transparent, container_opacity: 100, content_opacity: 38, border_opacity: 0 },
                state_layer: ThemeRole::Primary,
                elevation_rest: 0,
                elevation_hover: 0,
                elevation_focus: 0,
                elevation_pressed: 0,
                elevation_disabled: 0,
            },
        ButtonVariant::Plain => ButtonSemanticTable {
                base: full_opacity(ThemeRole::Transparent, ThemeRole::OnSurfaceVariant, ThemeRole::Transparent),
                selected: full_opacity(ThemeRole::Transparent, ThemeRole::OnSurfaceVariant, ThemeRole::Transparent),
                disabled: ButtonSemanticState { container: ThemeRole::Transparent, content: ThemeRole::OnSurfaceVariant, border: ThemeRole::Transparent, container_opacity: 100, content_opacity: 38, border_opacity: 0 },
                state_layer: ThemeRole::Transparent,
                elevation_rest: 0,
                elevation_hover: 0,
                elevation_focus: 0,
                elevation_pressed: 0,
                elevation_disabled: 0,
            },
    }
}

/// The paint of a button variant.
pub fn button_semantic_table(variant: ButtonVariant) -> (table: ButtonSemanticTable)
    ensures
        table == button_semantic_table_spec(variant),
{
    let (base, disabled, state_layer, elevations) = match variant {
        ButtonVariant::Filled => (
            state(ThemeRole::Primary, ThemeRole::OnPrimary, ThemeRole::Transparent),
            ButtonSemanticState {
                container: ThemeRole::OnSurface,
                content: ThemeRole::OnSurfaceVariant,
                border: ThemeRole::Transparent,
                container_opacity: 10,
                content_opacity: 38,
                border_opacity: 0,
            },
            ThemeRole::OnPrimary,
            (0u8, 1u8, 0u8, 0u8, 0u8),
        ),
        ButtonVariant::Elevated => (
            state(ThemeRole::SurfaceContainerLow, ThemeRole::Primary, ThemeRole::Transparent),
            ButtonSemanticState {
                container: ThemeRole::OnSurface,
                content: ThemeRole::OnSurfaceVariant,
                border: ThemeRole::Transparent,
                container_opacity: 10,
                content_opacity: 38,
                border_opacity: 0,
            },
            ThemeRole::Primary,
            (1u8, 2u8, 1u8, 1u8, 0u8),
        ),
        ButtonVariant::FilledTonal => (
            state(ThemeRole::SecondaryContainer, ThemeRole::OnSecondaryContainer, ThemeRole::Transparent),
            ButtonSemanticState {
                container: ThemeRole::OnSurface,
                content: ThemeRole::OnSurface,
                border: ThemeRole::Transparent,
                container_opacity: 12,
                content_opacity: 38,
                border_opacity: 0,
            },
            ThemeRole::OnSecondaryContainer,
            (0u8, 1u8, 0u8, 0u8, 0u8),
        ),
        ButtonVariant::Outlined => (
            state(ThemeRole::Transparent, ThemeRole::OnSurfaceVariant, ThemeRole::OutlineVariant),
            ButtonSemanticState {
                container: ThemeRole::Transparent,
                content: ThemeRole::OnSurfaceVariant,
                border: ThemeRole::OutlineVariant,
                container_opacity: 100,
                content_opacity: 38,
                border_opacity: 10,
            },
            ThemeRole::OnSurfaceVariant,
            (0u8, 0u8, 0u8, 0u8, 0u8),
        ),
        ButtonVariant::Text => (
            state(ThemeRole::Transparent, ThemeRole::Primary, ThemeRole::Transparent),
            ButtonSemanticState {
                container: ThemeRole::Transparent,
                content: ThemeRole::OnSurfaceVariant,
                border: ThemeRole::Transparent,
                container_opacity: 100,
                content_opacity: 38,
                border_opacity: 0,
            },
            ThemeRole::Primary,
            (0u8, 0u8, 0u8, 0u8, 0u8),
        ),
        ButtonVariant::Plain => (
            state(ThemeRole::Transparent, ThemeRole::OnSurfaceVariant, ThemeRole::Transparent),
            ButtonSemanticState {
                container: ThemeRole::Transparent,
                content: ThemeRole::OnSurfaceVariant,
                border: ThemeRole::Transparent,
                container_opacity: 100,
                content_opacity: 38,
                border_opacity: 0,
            },
            ThemeRole::Transparent,
            (0u8, 0u8, 0u8, 0u8, 0u8),
        ),
    };
    ButtonSemanticTable {
        base,
        selected: base,
        disabled,
        state_layer,
        elevation_rest: elevations.0,
        elevation_hover: elevations.1,
        elevation_focus: elevations.2,
        elevation_pressed: elevations.3,
        elevation_disabled: elevations.4,
    }
}

/// The interaction state a button is painted in.
#[derive(Clone, Copy, Debug, PartialEq, Eq, Structural)]
pub enum ButtonPaintState {
    Rest,
    Hover,
    Focus,
    Pressed,
    Disabled,
}

/// A colour role painted at an opacity (percent).
#[derive(Clone, Copy, Debug, PartialEq, Eq, Structural)]
pub struct RolePaint {
    pub role: ThemeRole,
    pub opacity: u8,
}

/// How a button's container is painted.
#[derive(Clone, Copy, Debug, PartialEq, Eq, Structural)]
pub enum ContainerPaint {
    /// The role at its opacity.
    Solid(RolePaint),
    /// A state layer of the role `layer` at `layer_opacity` percent over
    /// `base`: where `base` is fully transparent the layer alone, otherwise
    /// `base` mixed with the layer.
    Layered { base: RolePaint, layer: ThemeRole, layer_opacity: u8 },
}

/// The paint of a button in one interaction state.
#[derive(Clone, Copy, Debug, PartialEq, Eq, Structural)]
pub struct PaintPlan {
    pub container: ContainerPaint,
    pub content: RolePaint,
    pub border: RolePaint,
    pub elevation: u8,
}

/// The state is one a state layer shows in.
pub open spec fn is_interactive_state(state: ButtonPaintState) -> bool {
    state == ButtonPaintState::Hover || state == ButtonPaintState::Focus || state == ButtonPaintState::Pressed
}

/// The paint of `variant` in `state`: the disabled roles when disabled,
/// else the resting ones; the elevation of the state; an on-surface content
/// for a plain button and a state layer (8% on hover, 10% on focus and
/// press) for any other when hovered, focused or pressed.
pub open spec fn paint_plan_spec(variant: ButtonVariant, state: ButtonPaintState) -> PaintPlan {
    let table = button_semantic_table_spec(variant);
    let semantic = if state == ButtonPaintState::Disabled {
        table.disabled
    } else {
        table.base
    };
    let container = RolePaint { role: semantic.container, opacity: semantic.container_opacity };
    let content = RolePaint { role: semantic.content, opacity: semantic.content_opacity };
    let border = RolePaint { role: semantic.border, opacity: semantic.border_opacity };
    let elevation = match state {
        ButtonPaintState::Rest => table.elevation_rest,
        ButtonPaintState::Hover => table.elevation_hover,
        ButtonPaintState::Focus => table.elevation_focus,
        ButtonPaintState::Pressed => table.elevation_pressed,
        ButtonPaintState::Disabled => table.elevation_disabled,
    };
    if variant == ButtonVariant::Plain {
        PaintPlan {
            container: ContainerPaint::Solid(container),
            content: if is_interactive_state(state) {
                RolePaint { role: ThemeRole::OnSurface, opacity: 100 }
            } else {
                content
            },
            border,
            elevation,
        }
    } else if is_interactive_state(state) {
        PaintPlan {
            container: ContainerPaint::Layered {
                base: container,
                layer: table.state_layer,
                layer_opacity: if state == ButtonPaintState::Hover {
                    8
                } else {
                    10
                },
            },
            content,
            border,
            elevation,
        }
    } else {
        PaintPlan { container: ContainerPaint::Solid(container), content, border, elevation }
    }
}

/// The paint of `variant` in `state`.
pub fn paint_plan(variant: ButtonVariant, state: ButtonPaintState) -> (plan: PaintPlan)
    ensures
        plan == paint_plan_spec(variant, state),
{
    let table = button_semantic_table(variant);
    let semantic = if state == ButtonPaintState::Disabled {
        table.disabled
    } else {
        table.base
    };
    let container = RolePaint { role: semantic.container, opacity: semantic.container_opacity };
    let mut content = RolePaint { role: semantic.content, opacity: semantic.content_opacity };
    let border = RolePaint { role: semantic.border, opacity: semantic.border_opacity };
    let elevation = match state {
        ButtonPaintState::Rest => table.elevation_rest,
        ButtonPaintState::Hover => table.elevation_hover,
        ButtonPaintState::Focus => table.elevation_focus,
        ButtonPaintState::Pressed => table.elevation_pressed,
        ButtonPaintState::Disabled => table.elevation_disabled,
    };
    let interactive = state == ButtonPaintState::Hover || state == ButtonPaintState::Focus || state
        == ButtonPaintState::Pressed;
    let mut painted = ContainerPaint::Solid(container);
    if variant == ButtonVariant::Plain {
        if interactive {
            content = RolePaint { role: ThemeRole::OnSurface, opacity: 100 };
        }
    } else if interactive {
        let layer_opacity: u8 = if state == ButtonPaintState::Hover {
            8
        } else {
            10
        };
        painted = ContainerPaint::Layered { base: container, layer: table.state_layer, layer_opacity };
    }
    PaintPlan { container: painted, content, border, elevation }
}

/// A button size: one of the semantic steps, or an exact height, of which
/// only the metric step it falls in matters here.
#[derive(Clone, Copy, Debug, PartialEq, Eq, Structural)]
pub enum ButtonSize {
    XSmall,
    Small,
    Medium,
    Large,
    Custom(ButtonScale),
}

/// A length: a number of pixels, or the exact height of a custom size.
#[derive(Clone, Copy, Debug, PartialEq, Eq, Structural)]
pub enum ButtonLength {
    Px(u32),
    CustomHeight,
}

/// The box of a button (device-independent pixels).
#[derive(Clone, Copy, Debug, PartialEq, Eq, Structural)]
pub struct ButtonDimensions {
    pub height: ButtonLength,
    pub horizontal_padding: u32,
    pub vertical_padding: u32,
    pub min_width: ButtonLength,
    pub icon: u32,
    pub gap: u32,
    pub outline: u32,
}

/// The metric step of a size: the semantic sizes are 32, 40, 56 and 96
/// high, the first four steps.
pub open spec fn metric_step(size: ButtonSize) -> ButtonScale {
    match size {
        ButtonSize::XSmall => ButtonScale::XSmall,
        ButtonSize::Small => ButtonScale::Small,
        ButtonSize::Medium => ButtonScale::Medium,
        ButtonSize::Large => ButtonScale::Large,
        ButtonSize::Custom(step) => step,
    }
}

/// The horizontal padding of a text button at each step.
pub open spec fn text_padding(step: ButtonScale) -> u32 {
    match step {
        ButtonScale::XSmall => 12,
        ButtonScale::Small => 16,
        ButtonScale::Medium => 24,
        ButtonScale::Large => 48,
        ButtonScale::XLarge => 64,
    }
}

/// The box of a button of `size` and `variant`: a plain button has no
/// padding or minimum width and no height of its own unless it is given
/// one; an icon-only button is a square of the icon button container (32,
/// 40, 48 or 56, or the custom height) with the icon of that container's
/// step; any other button takes the row of its metric step, with halved
/// horizontal padding when compact and a 58 minimum width.
pub open spec fn dimensions_spec(
    size: ButtonSize,
    variant: ButtonVariant,
    compact: bool,
    icon_only: bool,
) -> ButtonDimensions {
    let row = button_m3e_row_spec(metric_step(size));
    let custom = size is Custom;
    if variant == ButtonVariant::Plain {
        ButtonDimensions {
            height: if custom {
                ButtonLength::CustomHeight
            } else {
                ButtonLength::Px(0)
            },
            horizontal_padding: 0,
            vertical_padding: 0,
            min_width: ButtonLength::Px(0),
            icon: row.icon,
            gap: row.gap,
            outline: row.outline,
        }
    } else if icon_only {
        let (container, container_step) = match size {
            ButtonSize::XSmall => (ButtonLength::Px(32), ButtonScale::XSmall),
            ButtonSize::Small => (ButtonLength::Px(40), ButtonScale::Small),
            ButtonSize::Medium => (ButtonLength::Px(48), ButtonScale::Small),
            ButtonSize::Large => (ButtonLength::Px(56), ButtonScale::Medium),
            ButtonSize::Custom(step) => (ButtonLength::CustomHeight, step),
        };
        ButtonDimensions {
            height: container,
            horizontal_padding: 0,
            vertical_padding: 0,
            min_width: container,
            icon: icon_button_m3e_row_spec(container_step).icon,
            gap: 0,
            outline: row.outline,
        }
    } else {
        let horizontal = if variant == ButtonVariant::Text {
            text_padding(metric_step(size))
        } else {
            row.horizontal
        };
        ButtonDimensions {
            height: if custom {
                ButtonLength::CustomHeight
            } else {
                ButtonLength::Px(row.height)
            },
            horizontal_padding: if compact {
                (horizontal / 2) as u32
            } else {
                horizontal
            },
            vertical_padding: row.vertical,
            min_width: ButtonLength::Px(58),
            icon: row.icon,
            gap: row.gap,
            outline: row.outline,
        }
    }
}

/// The box of a button of `size` and `variant`, `compact` or not, with or
/// without a label.
pub fn dimensions(size: ButtonSize, variant: ButtonVariant, compact: bool, icon_only: bool) -> (dimensions:
    ButtonDimensions)
    ensures
        dimensions == dimensions_spec(size, variant, compact, icon_only),
{
    let step = match size {
        ButtonSize::XSmall => ButtonScale::XSmall,
        ButtonSize::Small => ButtonScale::Small,
        ButtonSize::Medium => ButtonScale::Medium,
        ButtonSize::Large => ButtonScale::Large,
        ButtonSize::Custom(step) => step,
    };
    let custom = match size {
        ButtonSize::Custom(_) => true,
        _ => false,
    };
    let row = button_m3e_row(step);
    if variant == ButtonVariant::Plain {
        return ButtonDimensions {
            height: if custom {
                ButtonLength::CustomHeight
            } else {
                ButtonLength::Px(0)
            },
            horizontal_padding: 0,
            vertical_padding: 0,
            min_width: ButtonLength::Px(0),
            icon: row.icon,
            gap: row.gap,
            outline: row.outline,
        };
    }
    if icon_only {
        let (container, container_step) = match size {
            ButtonSize::XSmall => (ButtonLength::Px(32), ButtonScale::XSmall),
            ButtonSize::Small => (ButtonLength::Px(40), ButtonScale::Small),
            ButtonSize::Medium => (ButtonLength::Px(48), ButtonScale::Small),
            ButtonSize::Large => (ButtonLength::Px(56), ButtonScale::Medium),
            ButtonSize::Custom(step) => (ButtonLength::CustomHeight, step),
        };
        return ButtonDimensions {
            height: container,
            horizontal_padding: 0,
            vertical_padding: 0,
            min_width: container,
            icon: icon_button_m3e_row(container_step).icon,
            gap: 0,
            outline: row.outline,
        };
    }
    let horizontal = if variant == ButtonVariant::Text {
        match step {
            ButtonScale::XSmall => 12,
            ButtonScale::Small => 16,
            ButtonScale::Medium => 24,
            ButtonScale::Large => 48,
            ButtonScale::XLarge => 64,
        }
    } else {
        row.horizontal
    };
    ButtonDimensions {
        height: if custom {
            ButtonLength::CustomHeight
        } else {
            ButtonLength::Px(row.height)
        },
        horizontal_padding: if compact {
            horizontal / 2
        } else {
            horizontal
        },
        vertical_padding: row.vertical,
        min_width: ButtonLength::Px(58),
        icon: row.icon,
        gap: row.gap,
        outline: row.outline,
    }
}

/// The height a button of `size` is laid out at.
pub fn height(size: ButtonSize) -> (height: ButtonLength)
    ensures
        height == dimensions_spec(size, ButtonVariant::Filled, false, false).height,
{
    dimensions(size, ButtonVariant::Filled, false, false).height
}

/// An icon-only button (other than a plain one) has the same box whatever
/// its variant and compactness, and a labelled text button keeps the height
/// and minimum width of a filled one.
pub proof fn law_button_boxes_ignore_variant(
    size: ButtonSize,
    a: ButtonVariant,
    b: ButtonVariant,
    compact_a: bool,
    compact_b: bool,
)
    requires
        a != ButtonVariant::Plain,
        b != ButtonVariant::Plain,
    ensures
        dimensions_spec(size, a, compact_a, true) == dimensions_spec(size, b, compact_b, true),
        dimensions_spec(size, ButtonVariant::Text, compact_a, false).height == dimensions_spec(
            size,
            ButtonVariant::Filled,
            compact_b,
            false,
        ).height,
        dimensions_spec(size, ButtonVariant::Text, compact_a, false).min_width == dimensions_spec(
            size,
            ButtonVariant::Filled,
            compact_b,
            false,
        ).min_width,
{
}

/// Every variant paints its selected state like its resting one, shows its
/// disabled content at 38% and lies flat while disabled.
pub proof fn law_variant_tables_share_disabled_rules(variant: ButtonVariant)
    ensures
        button_semantic_table_spec(variant).selected == button_semantic_table_spec(variant).base,
        button_semantic_table_spec(variant).disabled.content_opacity == 38,
        button_semantic_table_spec(variant).elevation_disabled == 0,
        button_semantic_table_spec(variant).base.container_opacity == 100,
        button_semantic_table_spec(variant).base.content_opacity == 100,
{
}

/// A button shows a state layer only while hovered, focused or pressed, and
/// never when it is plain: at rest and disabled its container is solid,
/// painted in the roles of the state.
pub proof fn law_state_layer_only_when_interactive(variant: ButtonVariant, state: ButtonPaintState)
    ensures
        (paint_plan_spec(variant, state).container is Layered) == (variant != ButtonVariant::Plain
            && is_interactive_state(state)),
        state == ButtonPaintState::Disabled ==> paint_plan_spec(variant, state).container == ContainerPaint::Solid(
            RolePaint {
                role: button_semantic_table_spec(variant).disabled.container,
                opacity: button_semantic_table_spec(variant).disabled.container_opacity,
            },
        ),
{
}

/// A plain button shows its content in on-surface at full opacity whenever
/// it is hovered, focused or pressed, and in its resting (or disabled)
/// content role otherwise; its container never takes a state layer.
pub proof fn law_plain_content_in_every_interactive_state(state: ButtonPaintState)
    ensures
        (state == ButtonPaintState::Hover || state == ButtonPaintState::Focus || state
            == ButtonPaintState::Pressed) ==> paint_plan_spec(ButtonVariant::Plain, state).content == (RolePaint {
            role: ThemeRole::OnSurface,
            opacity: 100,
        }),
        state == ButtonPaintState::Rest ==> paint_plan_spec(ButtonVariant::Plain, state).content == (RolePaint {
            role: ThemeRole::OnSurfaceVariant,
            opacity: 100,
        }),
        state == ButtonPaintState::Disabled ==> paint_plan_spec(ButtonVariant::Plain, state).content == (
        RolePaint { role: ThemeRole::OnSurfaceVariant, opacity: 38 }),
        paint_plan_spec(ButtonVariant::Plain, state).container is Solid,
{
}

} // verus!
