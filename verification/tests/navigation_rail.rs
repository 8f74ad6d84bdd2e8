use shilpo_m3e::rail::{plan_retarget, resolve, RailSpring, RailTarget};

#[test]
fn geometry_keeps_the_selected_row_when_layout_changes() {
    let collapsed = resolve(Some(4), true);
    let expanded = resolve(Some(4), false);

    assert_eq!(collapsed.indicator_top, 196);
    assert_eq!(expanded.indicator_top, 224);
    assert_eq!(collapsed.indicator_width, 56);
    assert_eq!(expanded.indicator_width, 216);
}

#[test]
fn rail_widths_and_unselected_geometry() {
    assert_eq!(resolve(None, true).rail_width, 80);
    assert_eq!(resolve(None, false).rail_width, 240);
    assert_eq!(resolve(None, true).indicator_top, 4);
    assert_eq!(resolve(None, false).indicator_top, 0);
    assert_eq!(resolve(Some(0), true).indicator_height, 32);
    assert_eq!(resolve(Some(0), false).indicator_height, 48);
    assert_eq!(
        resolve(Some(usize::MAX), false).indicator_top,
        56 * (usize::MAX as u128)
    );
}

#[test]
fn layout_changes_use_the_slower_default_spring() {
    let expanded = RailTarget {
        selected_index: Some(4),
        collapsed: false,
    };
    let collapsed = RailTarget {
        selected_index: Some(4),
        collapsed: true,
    };
    let plan = plan_retarget(expanded, collapsed, 0);
    assert_eq!(plan.generation, 1);
    assert!(!plan.seed_from_target);
    assert_eq!(plan.duration_ms, 500);
    assert_eq!(plan.spring, RailSpring::DefaultSpatial);

    let moved = RailTarget {
        selected_index: Some(5),
        collapsed: true,
    };
    let plan = plan_retarget(collapsed, moved, 7);
    assert_eq!(plan.generation, 8);
    assert_eq!(plan.duration_ms, 420);
    assert_eq!(plan.spring, RailSpring::FastSpatial);
}

#[test]
fn first_selection_is_seeded_at_its_destination() {
    let none = RailTarget {
        selected_index: None,
        collapsed: true,
    };
    let seventh = RailTarget {
        selected_index: Some(7),
        collapsed: true,
    };
    assert!(plan_retarget(none, seventh, 3).seed_from_target);
    assert!(plan_retarget(seventh, none, 3).seed_from_target);
    assert_eq!(plan_retarget(none, seventh, u64::MAX).generation, 0);
}
