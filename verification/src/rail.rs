//! The navigation rail's geometry (its width and where its active indicator
//! sits) and the plan for retargeting the indicator's motion when the
//! selection or the layout changes.

use vstd::prelude::*;

verus! {

/// What the rail shows: which item is selected, if any, and whether the rail
/// is collapsed.
#[derive(Clone, Copy, Debug, PartialEq, Eq, Structural)]
pub struct RailTarget {
    pub selected_index: Option<usize>,
    pub collapsed: bool,
}

/// The rail's width and its active indicator's top, width and height
/// (device-independent pixels).
#[derive(Clone, Copy, Debug, PartialEq, Eq, Structural)]
pub struct RailGeometry {
    pub rail_width: u32,
    pub indicator_top: u128,
    pub indicator_width: u32,
    pub indicator_height: u32,
}

/// A collapsed rail is 80 wide with 56 by 32 indicators 48 apart, inset by
/// 4; an expanded one is 240 wide with 216 by 48 indicators 56 apart. With
/// nothing selected the indicator sits on the first row.
pub open spec fn resolve_spec(selected_index: Option<usize>, collapsed: bool) -> RailGeometry {
    let index: int = match selected_index {
        Some(i) => i as int,
        None => 0,
    };
    if collapsed {
        RailGeometry {
            rail_width: 80,
            indicator_top: (48 * index + 4) as u128,
            indicator_width: 56,
            indicator_height: 32,
        }
    } else {
        RailGeometry {
            rail_width: 240,
            indicator_top: (56 * index) as u128,
            indicator_width: 216,
            indicator_height: 48,
        }
    }
}

/// The rail geometry for `selected_index` and `collapsed`.
pub fn resolve(selected_index: Option<usize>, collapsed: bool) -> (geometry: RailGeometry)
    ensures
        geometry == resolve_spec(selected_index, collapsed),
{
    let index: u128 = match selected_index {
        Some(i) => i as u128,
        None => 0,
    };
    if collapsed {
        RailGeometry { rail_width: 80, indicator_top: 48 * index + 4, indicator_width: 56, indicator_height: 32 }
    } else {
        RailGeometry { rail_width: 240, indicator_top: 56 * index, indicator_width: 216, indicator_height: 48 }
    }
}

/// The spring a rail motion follows.
#[derive(Clone, Copy, Debug, PartialEq, Eq, Structural)]
pub enum RailSpring {
    /// The fast spatial spring, for a change of selection.
    FastSpatial,
    /// The default spatial spring, for a change of layout.
    DefaultSpatial,
}

/// How a retargeted motion runs: its generation, whether its indicator
/// starts at its destination, how long it lasts (milliseconds) and its spring.
#[derive(Clone, Copy, Debug, PartialEq, Eq, Structural)]
pub struct RailRetarget {
    pub generation: u64,
    pub seed_from_target: bool,
    pub duration_ms: u64,
    pub spring: RailSpring,
}

/// Moving from `current` to `target` starts the next generation (wrapping
/// around); when a selection appears or disappears the indicator starts at
/// its destination; a change of layout takes 500 ms on the default spring,
/// any other change 420 ms on the fast one.
pub open spec fn plan_retarget_spec(current: RailTarget, target: RailTarget, generation: u64) -> RailRetarget {
    let layout_changed = current.collapsed != target.collapsed;
    RailRetarget {
        generation: (if generation == u64::MAX {
            0
        } else {
            generation + 1
        }) as u64,
        seed_from_target: current.selected_index is None || target.selected_index is None,
        duration_ms: if layout_changed {
            500
        } else {
            420
        },
        spring: if layout_changed {
            RailSpring::DefaultSpatial
        } else {
            RailSpring::FastSpatial
        },
    }
}

/// The plan for moving the rail's motion from `current` to `target`.
pub fn plan_retarget(current: RailTarget, target: RailTarget, generation: u64) -> (plan: RailRetarget)
    ensures
        plan == plan_retarget_spec(current, target, generation),
{
    let layout_changed = current.collapsed != target.collapsed;
    let next = if generation == u64::MAX {
        0
    } else {
        generation + 1
    };
    RailRetarget {
        generation: next,
        seed_from_target: current.selected_index.is_none() || target.selected_index.is_none(),
        duration_ms: if layout_changed {
            500
        } else {
            420
        },
        spring: if layout_changed {
            RailSpring::DefaultSpatial
        } else {
            RailSpring::FastSpatial
        },
    }
}

/// Collapsing or expanding the rail keeps the indicator on the selected
/// row: in both layouts it sits at that row's place in the list, and rows
/// are further apart when the rail is expanded.
pub proof fn law_indicator_follows_selected_row(index: usize)
    ensures
        resolve_spec(Some(index), true).indicator_top == 48 * index + 4,
        resolve_spec(Some(index), false).indicator_top == 56 * index,
        index > 0 ==> resolve_spec(Some(index), true).indicator_top < resolve_spec(
            Some(index),
            false,
        ).indicator_top,
        resolve_spec(Some(index), true).rail_width < resolve_spec(Some(index), false).rail_width,
{
}

/// A retarget starts the indicator at its destination exactly when a
/// selection appears or disappears: when both the current and the target
/// selection are rows, whichever rows they are, the indicator moves from
/// where it is. Every retarget starts the next generation (wrapping), takes
/// 500 ms on the default spring when the layout changes and 420 ms on the
/// fast one otherwise.
pub proof fn law_retarget_seeds_only_without_selection(current: RailTarget, target: RailTarget, generation: u64)
    ensures
        plan_retarget_spec(current, target, generation).seed_from_target <==> (current.selected_index is None
            || target.selected_index is None),
        current.selected_index is Some && target.selected_index is Some ==> !plan_retarget_spec(
            current,
            target,
            generation,
        ).seed_from_target,
        plan_retarget_spec(current, target, generation).generation as int == (generation as int + 1)
            % 0x1_0000_0000_0000_0000,
        plan_retarget_spec(current, target, generation).duration_ms == (if current.collapsed
            != target.collapsed {
            500u64
        } else {
            420u64
        }),
        (plan_retarget_spec(current, target, generation).spring == RailSpring::DefaultSpatial) <==> (
        current.collapsed != target.collapsed),
{
}

} // verus!
