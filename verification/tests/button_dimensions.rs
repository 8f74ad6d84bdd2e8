use shilpo_m3e::button::ButtonVariant;
use shilpo_m3e::button_tokens::{dimensions, height, ButtonLength, ButtonScale, ButtonSize};

#[test]
fn m3_dimensions_match_androidx() {
    let expected = [
        (ButtonSize::XSmall, 32, 12, 6),
        (ButtonSize::Small, 40, 16, 10),
        (ButtonSize::Medium, 56, 24, 16),
        (ButtonSize::Large, 96, 48, 32),
    ];
    for (size, height, horizontal, vertical) in expected {
        let actual = dimensions(size, ButtonVariant::Filled, false, false);
        assert_eq!(actual.height, ButtonLength::Px(height));
        assert_eq!(actual.horizontal_padding, horizontal);
        assert_eq!(actual.vertical_padding, vertical);
        assert_eq!(actual.min_width, ButtonLength::Px(58));
    }
}

/// An exact height of 136 falls in the extra-large metric step.
#[test]
fn text_buttons_keep_height_and_min_width_but_narrow_padding() {
    for (size, padding) in [
        (ButtonSize::XSmall, 12),
        (ButtonSize::Small, 16),
        (ButtonSize::Medium, 24),
        (ButtonSize::Large, 48),
        (ButtonSize::Custom(ButtonScale::XLarge), 64),
    ] {
        assert_eq!(
            dimensions(size, ButtonVariant::Text, false, false).horizontal_padding,
            padding
        );
    }
}

/// Exact heights 33, 41, 57, 97 and 116 fall in the extra-small, small,
/// medium, large and large metric steps.
#[test]
fn custom_heights_use_metric_bucket_rows() {
    for (step, padding, icon, gap) in [
        (ButtonScale::XSmall, 12, 20, 4),
        (ButtonScale::Small, 16, 20, 8),
        (ButtonScale::Medium, 24, 24, 8),
        (ButtonScale::Large, 48, 32, 12),
        (ButtonScale::Large, 48, 32, 12),
    ] {
        let dimensions = dimensions(ButtonSize::Custom(step), ButtonVariant::Filled, false, false);
        assert_eq!(dimensions.height, ButtonLength::CustomHeight);
        assert_eq!(dimensions.horizontal_padding, padding);
        assert_eq!(dimensions.icon, icon);
        assert_eq!(dimensions.gap, gap);
    }
}

#[test]
fn icon_only_buttons_use_icon_button_geometry() {
    let text_icon = dimensions(ButtonSize::Medium, ButtonVariant::Text, false, true);
    let icon = dimensions(ButtonSize::Medium, ButtonVariant::Filled, false, true);
    assert_eq!(text_icon, icon);
    assert_eq!(icon.height, ButtonLength::Px(48));
    assert_eq!(icon.min_width, ButtonLength::Px(48));
    assert_eq!(icon.horizontal_padding, 0);
    assert_eq!(icon.icon, 24);
    assert_eq!(
        dimensions(ButtonSize::XSmall, ButtonVariant::Filled, true, true).icon,
        20
    );
}

#[test]
fn plain_and_compact_buttons() {
    let plain = dimensions(ButtonSize::Large, ButtonVariant::Plain, false, false);
    assert_eq!(plain.height, ButtonLength::Px(0));
    assert_eq!(plain.min_width, ButtonLength::Px(0));
    assert_eq!(plain.horizontal_padding, 0);
    assert_eq!(plain.icon, 32);
    let custom_plain = dimensions(
        ButtonSize::Custom(ButtonScale::Small),
        ButtonVariant::Plain,
        false,
        true,
    );
    assert_eq!(custom_plain.height, ButtonLength::CustomHeight);
    let compact = dimensions(ButtonSize::Medium, ButtonVariant::Outlined, true, false);
    assert_eq!(compact.horizontal_padding, 12);
    assert_eq!(height(ButtonSize::Small), ButtonLength::Px(40));
    assert_eq!(
        height(ButtonSize::Custom(ButtonScale::Medium)),
        ButtonLength::CustomHeight
    );
}
