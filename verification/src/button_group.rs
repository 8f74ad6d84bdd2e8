//! Button group tokens: spacing, height and corner radii, and the corners
//! each member of a group gets from its position.

use vstd::prelude::*;

verus! {

/// How the buttons of a group are joined.
#[derive(Clone, Copy, Debug, PartialEq, Eq, Structural)]
pub enum ButtonGroupMode {
    Standard,
    Connected,
}

impl Default for ButtonGroupMode {
    fn default() -> (mode: Self)
        ensures
            mode == ButtonGroupMode::Connected,
    {
        ButtonGroupMode::Connected
    }
}

/// The direction a group lays its buttons out in.
#[derive(Clone, Copy, Debug, PartialEq, Eq, Structural)]
pub enum Axis {
    Horizontal,
    Vertical,
}

/// A radius for each corner of a rectangle.
#[derive(Clone, Copy, Debug, PartialEq, Eq, Structural)]
pub struct Corners {
    pub top_left: u32,
    pub top_right: u32,
    pub bottom_right: u32,
    pub bottom_left: u32,
}

/// The geometry tokens of a button group (device-independent pixels).
#[derive(Clone, Copy, Debug, PartialEq, Eq, Structural)]
pub struct ButtonGroupTokens {
    pub spacing: u32,
    pub height: u32,
    pub outer_radius: u32,
    pub inner_radius: u32,
    pub pressed_inner_radius: u32,
    pub selected_inner_radius: u32,
}

/// The geometry of a group in `mode`: standard groups space their buttons
/// 12 apart, connected ones 2.
pub open spec fn tokens_spec(mode: ButtonGroupMode) -> ButtonGroupTokens {
    ButtonGroupTokens {
        spacing: if mode == ButtonGroupMode::Standard {
            12
        } else {
            2
        },
        height: 40,
        outer_radius: 20,
        inner_radius: 8,
        pressed_inner_radius: 4,
        selected_inner_radius: 4,
    }
}

/// The geometry of a group in `mode`.
pub fn tokens(mode: ButtonGroupMode) -> (tokens: ButtonGroupTokens)
    ensures
        tokens == tokens_spec(mode),
{
    let spacing = match mode {
        ButtonGroupMode::Standard => 12,
        ButtonGroupMode::Connected => 2,
    };
    ButtonGroupTokens {
        spacing,
        height: 40,
        outer_radius: 20,
        inner_radius: 8,
        pressed_inner_radius: 4,
        selected_inner_radius: 4,
    }
}

/// Every corner with the same radius.
pub open spec fn uniform(radius: u32) -> Corners {
    Corners { top_left: radius, top_right: radius, bottom_right: radius, bottom_left: radius }
}

/// The corners of member `index` of `count` in a group: a selected member,
/// a member of a standard group and a lone member are fully rounded; in a
/// connected group the outer radius goes on the group's outside corners
/// (the leading ones of the first member and the trailing ones of the last)
/// and the inner radius on the corners it shares with a neighbour.
pub open spec fn corner_radii_spec(
    mode: ButtonGroupMode,
    axis: Axis,
    index: int,
    count: int,
    selected: bool,
) -> Corners {
    let outer = tokens_spec(mode).outer_radius;
    let inner = tokens_spec(mode).inner_radius;
    let leading = if index == 0 {
        outer
    } else {
        inner
    };
    let trailing = if index + 1 == count {
        outer
    } else {
        inner
    };
    if selected || mode == ButtonGroupMode::Standard || count <= 1 {
        uniform(outer)
    } else if axis == Axis::Horizontal {
        Corners { top_left: leading, bottom_left: leading, top_right: trailing, bottom_right: trailing }
    } else {
        Corners { top_left: leading, top_right: leading, bottom_left: trailing, bottom_right: trailing }
    }
}

/// The corners of member `index` of `count` in a group.
pub fn corner_radii(mode: ButtonGroupMode, axis: Axis, index: usize, count: usize, selected: bool) -> (corners:
    Corners)
    ensures
        corners == corner_radii_spec(mode, axis, index as int, count as int, selected),
{
    let token = tokens(mode);
    if selected {
        return Corners {
            top_left: token.outer_radius,
            top_right: token.outer_radius,
            bottom_left: token.outer_radius,
            bottom_right: token.outer_radius,
        };
    }
    if mode == ButtonGroupMode::Standard || count <= 1 {
        return Corners {
            top_left: token.outer_radius,
            top_right: token.outer_radius,
            bottom_left: token.outer_radius,
            bottom_right: token.outer_radius,
        };
    }
    let first = index == 0;
    let last = index < count && index + 1 == count;
    let inner = token.inner_radius;
    let outer = token.outer_radius;
    match axis {
        Axis::Horizontal => Corners {
            top_left: if first {
                outer
            } else {
                inner
            },
            bottom_left: if first {
                outer
            } else {
                inner
            },
            top_right: if last {
                outer
            } else {
                inner
            },
            bottom_right: if last {
                outer
            } else {
                inner
            },
        },
        Axis::Vertical => Corners {
            top_left: if first {
                outer
            } else {
                inner
            },
            top_right: if first {
                outer
            } else {
                inner
            },
            bottom_left: if last {
                outer
            } else {
                inner
            },
            bottom_right: if last {
                outer
            } else {
                inner
            },
        },
    }
}

/// The corners of a connected group are mirror images along its axis: the
/// member at `index` has the corners of the member at `count - 1 - index`
/// reflected, so the group's outline is symmetric.
pub proof fn law_connected_corners_are_mirrored(axis: Axis, index: int, count: int, selected: bool)
    requires
        0 <= index < count,
    ensures
        ({
            let here = corner_radii_spec(ButtonGroupMode::Connected, axis, index, count, selected);
            let there = corner_radii_spec(ButtonGroupMode::Connected, axis, count - 1 - index, count, selected);
            if axis == Axis::Horizontal {
                here.top_left == there.top_right && here.bottom_left == there.bottom_right
                    && here.top_right == there.top_left && here.bottom_right == there.bottom_left
            } else {
                here.top_left == there.bottom_left && here.top_right == there.bottom_right
                    && here.bottom_left == there.top_left && here.bottom_right == there.top_right
            }
        }),
{
}

/// Every corner of a group member is either the outer or the inner radius.
pub proof fn law_corners_use_group_radii(mode: ButtonGroupMode, axis: Axis, index: int, count: int, selected: bool)
    ensures
        ({
            let c = corner_radii_spec(mode, axis, index, count, selected);
            let outer = tokens_spec(mode).outer_radius;
            let inner = tokens_spec(mode).inner_radius;
            &&& (c.top_left == outer || c.top_left == inner)
            &&& (c.top_right == outer || c.top_right == inner)
            &&& (c.bottom_right == outer || c.bottom_right == inner)
            &&& (c.bottom_left == outer || c.bottom_left == inner)
        }),
{
}

} // verus!
