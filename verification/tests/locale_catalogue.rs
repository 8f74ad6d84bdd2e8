use shilpo_m3e::i18n::LocaleCatalogue;

#[test]
fn test_translation_catalogue_lookup_and_fallback() {
    let mut catalogue = LocaleCatalogue::new("bn-IN");
    catalogue.insert_translation("bn-IN", "custom.title", "কাস্টম");
    catalogue.insert_translation("en-US", "only_en.key", "English Fallback");

    assert_eq!(catalogue.tr("custom.title"), "কাস্টম");
    assert_eq!(catalogue.tr("only_en.key"), "English Fallback");
    assert_eq!(catalogue.tr("unknown.key"), "unknown.key");
}

#[test]
fn test_pluralization_and_locale_number_formatting() {
    let en_cat = LocaleCatalogue::new("en-US");
    assert_eq!(
        en_cat.pluralize(1, "{count} window", "{count} windows"),
        "1 window"
    );
    assert_eq!(
        en_cat.pluralize(5, "{count} window", "{count} windows"),
        "5 windows"
    );

    let bn_cat = LocaleCatalogue::new("bn-IN");
    assert_eq!(bn_cat.format_number(12345), "১২৩৪৫");
}

#[test]
fn test_bidirectional_layout_and_string_expansion() {
    let ar_cat = LocaleCatalogue::new("ar-SA");
    assert!(ar_cat.is_rtl());

    let en_cat = LocaleCatalogue::new("en-US");
    assert!(!en_cat.is_rtl());

    let long_str = "Long string expansion test";
    assert_eq!(en_cat.truncate_or_expand(long_str, 10), "Long stri…");
    assert_eq!(en_cat.truncate_or_expand("Short", 10), "Short");
}

#[test]
fn test_localized_workspace_fallback_labels() {
    let en_cat = LocaleCatalogue::new("en-US");
    assert_eq!(en_cat.workspace_label(1, None), "Workspace 1");
    assert_eq!(en_cat.workspace_label(1, Some("Media")), "Media");

    let bn_cat = LocaleCatalogue::new("bn-IN");
    assert_eq!(bn_cat.workspace_label(2, None), "ওয়ার্কস্পেস ২");
}

#[test]
fn test_production_localization_catalogue_resources() {
    let catalogue = LocaleCatalogue::new("bn-IN");
    assert_eq!(catalogue.tr("settings.title"), "সেটিংস");
    assert_eq!(
        catalogue.tr("overview.search_placeholder"),
        "খুঁজুন, গণনা করুন বা চালান..."
    );
}

#[test]
fn test_assistive_tech_overlay_announcements() {
    let catalogue = LocaleCatalogue::new("en-US");
    let announcement = catalogue.announce_status("Workspace overview opened");
    assert_eq!(announcement, "[Announce (en-US)] Workspace overview opened");
}

#[test]
fn default_catalogue_is_english_with_bundled_entries() {
    let catalogue = LocaleCatalogue::default();
    assert_eq!(catalogue.current_locale, "en-US");
    assert_eq!(catalogue.fallback_locale, "en-US");
    assert_eq!(catalogue.tr("settings.title"), "Settings");
    assert_eq!(catalogue.tr("settings.general"), "General");
    assert_eq!(catalogue.tr("settings.appearance"), "Appearance");
    assert_eq!(catalogue.tr("settings.about"), "About");
    assert_eq!(
        catalogue.tr("overview.search_placeholder"),
        "Search, calculate or run"
    );
}

#[test]
fn unknown_locale_falls_back_to_english() {
    let catalogue = LocaleCatalogue::new("fr-FR");
    assert_eq!(catalogue.current_locale, "fr-FR");
    assert_eq!(catalogue.tr("settings.about"), "About");
}

#[test]
fn inserted_translation_is_read_back_and_overwrites() {
    let mut catalogue = LocaleCatalogue::new("de-DE");
    catalogue.insert_translation("de-DE", "settings.title", "Einstellungen");
    assert_eq!(catalogue.tr("settings.title"), "Einstellungen");
    catalogue.insert_translation("de-DE", "settings.title", "Optionen");
    assert_eq!(catalogue.tr("settings.title"), "Optionen");
    // Other keys and locales are untouched.
    assert_eq!(catalogue.tr("settings.general"), "General");
    let english = LocaleCatalogue::new("en-US");
    assert_eq!(english.tr("settings.title"), "Settings");
}

#[test]
fn insert_into_other_locale_does_not_change_lookup() {
    let mut catalogue = LocaleCatalogue::new("en-US");
    catalogue.insert_translation("ja-JP", "settings.title", "設定");
    assert_eq!(catalogue.tr("settings.title"), "Settings");
}

#[test]
fn bengali_digits_for_every_digit_and_zero() {
    let bn = LocaleCatalogue::new("bn");
    assert_eq!(bn.format_number(0), "০");
    assert_eq!(bn.format_number(9876543210), "৯৮৭৬৫৪৩২১০");
    let en = LocaleCatalogue::new("en-GB");
    assert_eq!(en.format_number(0), "0");
    assert_eq!(en.format_number(1000), "1000");
    // A locale merely containing "bn" later keeps ASCII digits.
    let other = LocaleCatalogue::new("x-bn");
    assert_eq!(other.format_number(42), "42");
}

#[test]
fn pluralize_in_bengali_replaces_every_placeholder() {
    let bn = LocaleCatalogue::new("bn-BD");
    assert_eq!(
        bn.pluralize(3, "{count} উইন্ডো", "{count}/{count} উইন্ডো"),
        "৩/৩ উইন্ডো"
    );
    assert_eq!(bn.pluralize(1, "{count} উইন্ডো", "x"), "১ উইন্ডো");
    let en = LocaleCatalogue::new("en-US");
    assert_eq!(en.pluralize(0, "one", "none left"), "none left");
}

#[test]
fn rtl_languages_ignore_case_and_region() {
    for locale in ["ar", "HE-il", "fa_IR", "Ur-PK"] {
        assert!(LocaleCatalogue::new(locale).is_rtl(), "{locale}");
    }
    for locale in ["", "arab", "en", "-ar", "bn-IN"] {
        assert!(!LocaleCatalogue::new(locale).is_rtl(), "{locale}");
    }
}

#[test]
fn truncate_edge_cases() {
    let en = LocaleCatalogue::new("en-US");
    assert_eq!(en.truncate_or_expand("abc", 0), "…");
    assert_eq!(en.truncate_or_expand("abc", 1), "…");
    assert_eq!(en.truncate_or_expand("abc", 2), "a…");
    assert_eq!(en.truncate_or_expand("abc", 3), "abc");
    assert_eq!(en.truncate_or_expand("", 0), "");
    // Counts characters, not bytes.
    assert_eq!(en.truncate_or_expand("äöüß", 3), "äö…");
}

#[test]
fn workspace_label_ignores_blank_custom_names() {
    let en = LocaleCatalogue::new("en-US");
    assert_eq!(en.workspace_label(7, Some("   ")), "Workspace 7");
    assert_eq!(en.workspace_label(7, Some("")), "Workspace 7");
    assert_eq!(en.workspace_label(12, Some(" Dev ")), " Dev ");
    let bn = LocaleCatalogue::new("bn-IN");
    assert_eq!(bn.workspace_label(10, Some("\t\n")), "ওয়ার্কস্পেস ১০");
}

#[test]
fn announcement_names_current_locale() {
    let bn = LocaleCatalogue::new("bn-IN");
    assert_eq!(bn.announce_status(""), "[Announce (bn-IN)] ");
}
