//! Split button tokens: the height, paddings, icon size and corner shapes of
//! a split button at each step of the button size scale.

use crate::button_tokens::ButtonScale;
use vstd::prelude::*;

verus! {

/// A corner of a split button: fully rounded, or rounded by a radius.
#[derive(Clone, Copy, Debug, PartialEq, Eq, Structural)]
pub enum SplitButtonShape {
    CornerFull,
    Corner(u32),
}

/// The corners of a split button at rest, hovered, pressed and checked.
#[derive(Clone, Copy, Debug, PartialEq, Eq, Structural)]
pub struct SplitButtonShapes {
    pub shape: SplitButtonShape,
    pub hovered_shape: SplitButtonShape,
    pub pressed_shape: SplitButtonShape,
    pub checked_shape: SplitButtonShape,
}

/// The geometry of a split button (device-independent pixels).
#[derive(Clone, Copy, Debug, PartialEq, Eq, Structural)]
pub struct SplitButtonTokens {
    pub height: u32,
    pub leading_start: u32,
    pub leading_end: u32,
    pub trailing_start: u32,
    pub trailing_end: u32,
    pub icon: u32,
    pub min_width: u32,
    pub between_space: u32,
    pub inner_radius: u32,
    pub shapes: SplitButtonShapes,
}

/// The tokens of one step: its height, leading and trailing paddings, icon
/// size, inner radius and pressed radius, with a 48 minimum width, 2 between
/// the halves and a pill shape at rest and when checked.
pub open spec fn row(
    height: u32,
    leading_start: u32,
    leading_end: u32,
    trailing: u32,
    icon: u32,
    inner: u32,
    pressed: u32,
) -> SplitButtonTokens {
    SplitButtonTokens {
        height,
        leading_start,
        leading_end,
        trailing_start: trailing,
        trailing_end: trailing,
        icon,
        min_width: 48,
        between_space: 2,
        inner_radius: inner,
        shapes: SplitButtonShapes {
            shape: SplitButtonShape::CornerFull,
            hovered_shape: SplitButtonShape::Corner(pressed),
            pressed_shape: SplitButtonShape::Corner(pressed),
            checked_shape: SplitButtonShape::CornerFull,
        },
    }
}

/// The tokens of each step of the scale.
pub open spec fn tokens_spec(scale: ButtonScale) -> SplitButtonTokens {
    match scale {
        ButtonScale::XSmall => row(32, 12, 10, 13, 22, 4, 8),
        ButtonScale::Small => row(40, 16, 12, 13, 22, 4, 12),
        ButtonScale::Medium => row(56, 24, 24, 15, 26, 4, 12),
        ButtonScale::Large => row(96, 48, 48, 29, 38, 8, 20),
        ButtonScale::XLarge => row(136, 64, 64, 43, 50, 12, 20),
    }
}

/// The split button tokens of a step of the scale.
pub fn tokens(scale: ButtonScale) -> (tokens: SplitButtonTokens)
    ensures
        tokens == tokens_spec(scale),
{
    let (height, leading_start, leading_end, trailing, icon, inner, pressed): (
        u32,
        u32,
        u32,
        u32,
        u32,
        u32,
        u32,
    ) = match scale {
        ButtonScale::XSmall => (32, 12, 10, 13, 22, 4, 8),
        ButtonScale::Small => (40, 16, 12, 13, 22, 4, 12),
        ButtonScale::Medium => (56, 24, 24, 15, 26, 4, 12),
        ButtonScale::Large => (96, 48, 48, 29, 38, 8, 20),
        ButtonScale::XLarge => (136, 64, 64, 43, 50, 12, 20),
    };
    SplitButtonTokens {
        height,
        leading_start,
        leading_end,
        trailing_start: trailing,
        trailing_end: trailing,
        icon,
        min_width: 48,
        between_space: 2,
        inner_radius: inner,
        shapes: SplitButtonShapes {
            shape: SplitButtonShape::CornerFull,
            hovered_shape: SplitButtonShape::Corner(pressed),
            pressed_shape: SplitButtonShape::Corner(pressed),
            // The checked shape is static 50% shape metadata: rendering does not morph.
            checked_shape: SplitButtonShape::CornerFull,
        },
    }
}

/// At every step a split button is a pill at rest and when checked, hovering
/// looks like pressing, and its inner corners are tighter than its pressed
/// ones.
pub proof fn law_split_button_shapes(scale: ButtonScale)
    ensures
        tokens_spec(scale).shapes.shape == SplitButtonShape::CornerFull,
        tokens_spec(scale).shapes.checked_shape == SplitButtonShape::CornerFull,
        tokens_spec(scale).shapes.hovered_shape == tokens_spec(scale).shapes.pressed_shape,
        tokens_spec(scale).shapes.pressed_shape matches SplitButtonShape::Corner(r) && tokens_spec(
            scale,
        ).inner_radius < r,
{
}

} // verus!
