//! A locale translation catalogue with fallback lookup, plural patterns,
//! locale-aware digits, text direction and label helpers.

use crate::outside::{lowercase, push_char, to_lowercase};
use crate::strings::{
    ascii_digit, chars_of, decimal, is_blank, lemma_decimal_bengali, push_decimal, replace_all,
    replace_all_str, str_eq, str_is_blank, str_starts_with, to_bengali_digit,
};
use vstd::prelude::*;
use vstd::string::StringExecFns;

verus! {

broadcast use vstd::string::group_string_axioms;

/// The translation of `key` among `entries`: the value of the first entry
/// whose key is `key`.
pub open spec fn entry_value(entries: Seq<(String, String)>, key: Seq<char>) -> Option<Seq<char>>
    decreases entries.len(),
{
    if entries.len() == 0 {
        None
    } else if entries[0].0@ == key {
        Some(entries[0].1@)
    } else {
        entry_value(entries.drop_first(), key)
    }
}

/// The dictionary of `locale` among `dictionaries`: the entries of the
/// first dictionary whose locale is `locale`.
pub open spec fn dictionary(dictionaries: Seq<(String, Vec<(String, String)>)>, locale: Seq<char>) -> Option<
    Seq<(String, String)>,
>
    decreases dictionaries.len(),
{
    if dictionaries.len() == 0 {
        None
    } else if dictionaries[0].0@ == locale {
        Some(dictionaries[0].1@)
    } else {
        dictionary(dictionaries.drop_first(), locale)
    }
}

/// The locale's language is Bengali: it starts with `bn`.
pub open spec fn is_bengali(locale: Seq<char>) -> bool {
    2 <= locale.len() && locale.take(2) == "bn"@
}

/// The locale's language: its characters before the first `-` or `_`.
pub open spec fn language(locale: Seq<char>) -> Seq<char>
    decreases locale.len(),
{
    if locale.len() == 0 || locale[0] == '-' || locale[0] == '_' {
        seq![]
    } else {
        seq![locale[0]] + language(locale.drop_first())
    }
}

/// `val` written out in the locale's digits.
pub open spec fn localized_number(locale: Seq<char>, val: nat) -> Seq<char> {
    if is_bengali(locale) {
        decimal(val, false).map_values(|c: char| to_bengali_digit(c))
    } else {
        decimal(val, false)
    }
}

/// What [`LocaleCatalogue::default`] translates `key` to in `locale`.
pub open spec fn bundled_translation(locale: Seq<char>, key: Seq<char>) -> Option<Seq<char>> {
    if locale == "bn-IN"@ && key == "overview.search_placeholder"@ {
        Some("খুঁজুন, গণনা করুন বা চালান..."@)
    } else if locale == "bn-IN"@ && key == "settings.about"@ {
        Some("সম্পর্কে"@)
    } else if locale == "bn-IN"@ && key == "settings.appearance"@ {
        Some("চেহারা"@)
    } else if locale == "bn-IN"@ && key == "settings.general"@ {
        Some("সাধারণ"@)
    } else if locale == "bn-IN"@ && key == "settings.title"@ {
        Some("সেটিংস"@)
    } else if locale == "en-US"@ && key == "overview.search_placeholder"@ {
        Some("Search, calculate or run"@)
    } else if locale == "en-US"@ && key == "settings.about"@ {
        Some("About"@)
    } else if locale == "en-US"@ && key == "settings.appearance"@ {
        Some("Appearance"@)
    } else if locale == "en-US"@ && key == "settings.general"@ {
        Some("General"@)
    } else if locale == "en-US"@ && key == "settings.title"@ {
        Some("Settings"@)
    } else {
        None
    }
}

/// Replacing the value of the first entry for `key` gives `key` that value
/// and leaves every other key's translation as it was.
proof fn lemma_entry_value_update(entries: Seq<(String, String)>, j: int, key: Seq<char>, value: String)
    requires
        0 <= j < entries.len(),
        entries[j].0@ == key,
        forall|m: int| 0 <= m < j ==> entries[m].0@ != key,
    ensures
        entry_value(entries.update(j, (entries[j].0, value)), key) == Some(value@),
        forall|k: Seq<char>|
            k != key ==> #[trigger] entry_value(entries.update(j, (entries[j].0, value)), k)
                == entry_value(entries, k),
    decreases j,
{
    let updated = entries.update(j, (entries[j].0, value));
    if j > 0 {
        assert(updated.drop_first() =~= entries.drop_first().update(j - 1, (entries[j].0, value)));
        lemma_entry_value_update(entries.drop_first(), j - 1, key, value);
    }
    assert forall|k: Seq<char>| k != key implies #[trigger] entry_value(updated, k) == entry_value(entries, k) by {
        if j > 0 {
            assert(updated[0] == entries[0]);
            assert(updated.drop_first() =~= entries.drop_first().update(j - 1, (entries[j].0, value)));
            assert(entry_value(entries.drop_first().update(j - 1, (entries[j].0, value)), k) == entry_value(
                entries.drop_first(),
                k,
            ));
        } else {
            assert(updated.drop_first() =~= entries.drop_first());
        }
    }
}

/// Appending an entry for a key that has none gives that key the entry's
/// value and leaves every other key's translation as it was.
proof fn lemma_entry_value_push(entries: Seq<(String, String)>, key: String, value: String)
    requires
        entry_value(entries, key@) is None,
    ensures
        entry_value(entries.push((key, value)), key@) == Some(value@),
        forall|k: Seq<char>|
            k != key@ ==> #[trigger] entry_value(entries.push((key, value)), k) == entry_value(entries, k),
    decreases entries.len(),
{
    let pushed = entries.push((key, value));
    if entries.len() > 0 {
        assert(pushed.drop_first() =~= entries.drop_first().push((key, value)));
        lemma_entry_value_push(entries.drop_first(), key, value);
    } else {
        assert(pushed.drop_first() =~= Seq::<(String, String)>::empty());
    }
    assert forall|k: Seq<char>| k != key@ implies #[trigger] entry_value(pushed, k) == entry_value(entries, k) by {
        if entries.len() > 0 {
            assert(pushed[0] == entries[0]);
            assert(entry_value(entries.drop_first().push((key, value)), k) == entry_value(entries.drop_first(), k));
        } else {
            assert(pushed[0] == (key, value));
            assert(entry_value(Seq::<(String, String)>::empty(), k) is None);
        }
    }
}

/// Replacing the entries of the first dictionary for `locale` changes only
/// that locale's dictionary.
proof fn lemma_dictionary_update(
    dictionaries: Seq<(String, Vec<(String, String)>)>,
    i: int,
    locale: Seq<char>,
    entries: Vec<(String, String)>,
)
    requires
        0 <= i < dictionaries.len(),
        dictionaries[i].0@ == locale,
        forall|m: int| 0 <= m < i ==> dictionaries[m].0@ != locale,
    ensures
        dictionary(dictionaries.update(i, (dictionaries[i].0, entries)), locale) == Some(entries@),
        forall|l: Seq<char>|
            l != locale ==> #[trigger] dictionary(dictionaries.update(i, (dictionaries[i].0, entries)), l)
                == dictionary(dictionaries, l),
    decreases i,
{
    let updated = dictionaries.update(i, (dictionaries[i].0, entries));
    if i > 0 {
        assert(updated.drop_first() =~= dictionaries.drop_first().update(i - 1, (dictionaries[i].0, entries)));
        lemma_dictionary_update(dictionaries.drop_first(), i - 1, locale, entries);
    }
    assert forall|l: Seq<char>| l != locale implies #[trigger] dictionary(updated, l) == dictionary(dictionaries, l) by {
        if i > 0 {
            assert(updated[0] == dictionaries[0]);
            assert(dictionary(dictionaries.drop_first().update(i - 1, (dictionaries[i].0, entries)), l)
                == dictionary(dictionaries.drop_first(), l));
        } else {
            assert(updated.drop_first() =~= dictionaries.drop_first());
        }
    }
}

/// Appending a dictionary for a locale that has none gives that locale the
/// dictionary and leaves every other locale's dictionary as it was.
proof fn lemma_dictionary_push(
    dictionaries: Seq<(String, Vec<(String, String)>)>,
    locale: String,
    entries: Vec<(String, String)>,
)
    requires
        dictionary(dictionaries, locale@) is None,
    ensures
        dictionary(dictionaries.push((locale, entries)), locale@) == Some(entries@),
        forall|l: Seq<char>|
            l != locale@ ==> #[trigger] dictionary(dictionaries.push((locale, entries)), l) == dictionary(
                dictionaries,
                l,
            ),
    decreases dictionaries.len(),
{
    let pushed = dictionaries.push((locale, entries));
    if dictionaries.len() > 0 {
        assert(pushed.drop_first() =~= dictionaries.drop_first().push((locale, entries)));
        lemma_dictionary_push(dictionaries.drop_first(), locale, entries);
    } else {
        assert(pushed.drop_first() =~= Seq::<(String, Vec<(String, String)>)>::empty());
    }
    assert forall|l: Seq<char>| l != locale@ implies #[trigger] dictionary(pushed, l) == dictionary(dictionaries, l) by {
        if dictionaries.len() > 0 {
            assert(pushed[0] == dictionaries[0]);
            assert(dictionary(dictionaries.drop_first().push((locale, entries)), l) == dictionary(
                dictionaries.drop_first(),
                l,
            ));
        } else {
            assert(pushed[0] == (locale, entries));
            assert(dictionary(Seq::<(String, Vec<(String, String)>)>::empty(), l) is None);
        }
    }
}

/// No entry has `key`, so it has no translation.
proof fn lemma_entry_absent(entries: Seq<(String, String)>, key: Seq<char>)
    requires
        forall|m: int| 0 <= m < entries.len() ==> entries[m].0@ != key,
    ensures
        entry_value(entries, key) is None,
    decreases entries.len(),
{
    if entries.len() > 0 {
        assert forall|m: int| 0 <= m < entries.drop_first().len() implies entries.drop_first()[m].0@ != key by {
            assert(entries.drop_first()[m] == entries[m + 1]);
        }
        lemma_entry_absent(entries.drop_first(), key);
    }
}

/// No dictionary is for `locale`, so it has none.
proof fn lemma_dictionary_absent(dictionaries: Seq<(String, Vec<(String, String)>)>, locale: Seq<char>)
    requires
        forall|m: int| 0 <= m < dictionaries.len() ==> dictionaries[m].0@ != locale,
    ensures
        dictionary(dictionaries, locale) is None,
    decreases dictionaries.len(),
{
    if dictionaries.len() > 0 {
        assert forall|m: int| 0 <= m < dictionaries.drop_first().len() implies dictionaries.drop_first()[m].0@
            != locale by {
            assert(dictionaries.drop_first()[m] == dictionaries[m + 1]);
        }
        lemma_dictionary_absent(dictionaries.drop_first(), locale);
    }
}

/// The dictionary found for `locale` is that of its first dictionary.
proof fn lemma_dictionary_at(dictionaries: Seq<(String, Vec<(String, String)>)>, i: int, locale: Seq<char>)
    requires
        0 <= i < dictionaries.len(),
        dictionaries[i].0@ == locale,
        forall|m: int| 0 <= m < i ==> dictionaries[m].0@ != locale,
    ensures
        dictionary(dictionaries, locale) == Some(dictionaries[i].1@),
    decreases i,
{
    if i > 0 {
        lemma_dictionary_at(dictionaries.drop_first(), i - 1, locale);
    }
}

/// The translation found for `key` is that of its first entry.
proof fn lemma_entry_at(entries: Seq<(String, String)>, j: int, key: Seq<char>)
    requires
        0 <= j < entries.len(),
        entries[j].0@ == key,
        forall|m: int| 0 <= m < j ==> entries[m].0@ != key,
    ensures
        entry_value(entries, key) == Some(entries[j].1@),
    decreases j,
{
    if j > 0 {
        lemma_entry_at(entries.drop_first(), j - 1, key);
    }
}

/// `after` is `before` with `value` stored as the translation of `key` in
/// `locale`: both locales are kept, that pair reads `value`, and every other
/// pair of locale and key reads as it did.
pub open spec fn translation_inserted(
    before: LocaleCatalogue,
    after: LocaleCatalogue,
    locale: Seq<char>,
    key: Seq<char>,
    value: Seq<char>,
) -> bool {
    &&& after.current_view() == before.current_view()
    &&& after.fallback_view() == before.fallback_view()
    &&& after.translation(locale, key) == Some(value)
    &&& forall|l: Seq<char>, k: Seq<char>|
        l != locale || k != key ==> #[trigger] after.translation(l, k) == before.translation(l, k)
}

/// After an insertion, a pair of locale and key reads the inserted value
/// when it is the inserted pair, and what it read before otherwise.
proof fn lemma_inserted_reads(
    before: LocaleCatalogue,
    after: LocaleCatalogue,
    locale: Seq<char>,
    key: Seq<char>,
    value: Seq<char>,
    l: Seq<char>,
    k: Seq<char>,
)
    requires
        translation_inserted(before, after, locale, key, value),
    ensures
        after.translation(l, k) == (if l == locale && k == key {
            Some(value)
        } else {
            before.translation(l, k)
        }),
{
}

/// What [`LocaleCatalogue::truncate_or_expand`] shows of `text`: the text
/// itself when it has at most `max_len` characters, else its first
/// `max_len - 1` characters (none when `max_len` is 0) followed by `…`.
pub open spec fn truncated(text: Seq<char>, max_len: nat) -> Seq<char> {
    if text.len() <= max_len {
        text
    } else {
        text.take(
            if max_len == 0 {
                0
            } else {
                max_len - 1
            },
        ).push('…')
    }
}

/// Locale translation catalogue managing i18n dictionaries and fallback lookup.
#[derive(Clone, Debug)]
pub struct LocaleCatalogue {
    pub current_locale: String,
    pub fallback_locale: String,
    translations: Vec<(String, Vec<(String, String)>)>,
}

impl LocaleCatalogue {
    /// The current locale.
    pub closed spec fn current_view(&self) -> Seq<char> {
        self.current_locale@
    }

    /// The locale whose translations are used when the current locale has none.
    pub closed spec fn fallback_view(&self) -> Seq<char> {
        self.fallback_locale@
    }

    /// The translation of `key` in `locale`, if the catalogue holds one.
    pub closed spec fn translation(&self, locale: Seq<char>, key: Seq<char>) -> Option<Seq<char>> {
        match dictionary(self.translations@, locale) {
            Some(entries) => entry_value(entries, key),
            None => None,
        }
    }

    /// What [`LocaleCatalogue::tr`] gives for `key`: its translation in the
    /// current locale, else in the fallback locale, else the key itself.
    pub open spec fn lookup(&self, key: Seq<char>) -> Seq<char> {
        match self.translation(self.current_view(), key) {
            Some(value) => value,
            None => match self.translation(self.fallback_view(), key) {
                Some(value) => value,
                None => key,
            },
        }
    }

    /// Stores `value` as the translation of `key` in `locale`.
    pub fn insert_translation(&mut self, locale: &str, key: &str, value: &str)
        ensures
            translation_inserted(*old(self), *final(self), locale@, key@, value@),
    {
        let mut i: usize = 0;
        while i < self.translations.len()
            invariant
                i <= self.translations@.len(),
                forall|m: int| 0 <= m < i ==> self.translations@[m].0@ != locale@,
            ensures
                i <= self.translations@.len(),
                forall|m: int| 0 <= m < i ==> self.translations@[m].0@ != locale@,
                i < self.translations@.len() ==> self.translations@[i as int].0@ == locale@,
            decreases self.translations@.len() - i,
        {
            if str_eq(self.translations[i].0.as_str(), locale) {
                break;
            }
            i = i + 1;
        }
        if i == self.translations.len() {
            proof {
                assert(dictionary(self.translations@, locale@) is None) by {
                    lemma_dictionary_absent(self.translations@, locale@);
                }
            }
            let ghost before = self.translations@;
            let mut entries: Vec<(String, String)> = Vec::new();
            let new_key = key.to_owned();
            let new_value = value.to_owned();
            proof {
                lemma_entry_value_push(entries@, new_key, new_value);
            }
            entries.push((new_key, new_value));
            let ghost new_entries = entries;
            let new_locale = locale.to_owned();
            proof {
                lemma_dictionary_push(before, new_locale, new_entries);
            }
            self.translations.push((new_locale, entries));
            proof {
                assert forall|l: Seq<char>, k: Seq<char>| l != locale@ || k != key@ implies #[trigger] self.translation(l, k)
                    == old(self).translation(l, k) by {
                    if l == locale@ {
                        assert(entry_value(Seq::<(String, String)>::empty(), k) is None);
                    }
                }
            }
        } else {
            let ghost before = self.translations@;
            proof {
                lemma_dictionary_at(before, i as int, locale@);
            }
            let (dict_locale, mut entries) = self.translations.remove(i);
            let ghost old_entries = entries@;
            let mut j: usize = 0;
            while j < entries.len()
                invariant
                    entries@ == old_entries,
                    j <= entries@.len(),
                    forall|m: int| 0 <= m < j ==> entries@[m].0@ != key@,
                ensures
                    entries@ == old_entries,
                    j <= entries@.len(),
                    forall|m: int| 0 <= m < j ==> entries@[m].0@ != key@,
                    j < entries@.len() ==> entries@[j as int].0@ == key@,
                decreases entries@.len() - j,
            {
                if str_eq(entries[j].0.as_str(), key) {
                    break;
                }
                j = j + 1;
            }
            if j == entries.len() {
                proof {
                    lemma_entry_absent(old_entries, key@);
                }
                let new_key = key.to_owned();
                let new_value = value.to_owned();
                proof {
                    lemma_entry_value_push(old_entries, new_key, new_value);
                }
                entries.push((new_key, new_value));
            } else {
                let new_value = value.to_owned();
                proof {
                    lemma_entry_value_update(old_entries, j as int, key@, new_value);
                }
                let (entry_key, _) = entries.remove(j);
                entries.insert(j, (entry_key, new_value));
                assert(entries@ =~= old_entries.update(j as int, (old_entries[j as int].0, new_value)));
            }
            let ghost new_entries = entries;
            self.translations.insert(i, (dict_locale, entries));
            proof {
                assert(self.translations@ =~= before.update(i as int, (before[i as int].0, new_entries)));
                lemma_dictionary_update(before, i as int, locale@, new_entries);
                assert forall|l: Seq<char>, k: Seq<char>| l != locale@ || k != key@ implies #[trigger] self.translation(l, k)
                    == old(self).translation(l, k) by {
                    if l == locale@ {
                        assert(entry_value(new_entries@, k) == entry_value(old_entries, k));
                    }
                }
            }
        }
    }
}

impl Default for LocaleCatalogue {
    /// A catalogue for `en-US` (also the fallback) holding the bundled
    /// `en-US` and `bn-IN` translations.
    fn default() -> (catalogue: Self)
        ensures
            catalogue.current_view() == "en-US"@,
            catalogue.fallback_view() == "en-US"@,
            forall|l: Seq<char>, k: Seq<char>|
                #[trigger] catalogue.translation(l, k) == bundled_translation(l, k),
    {
        let mut catalogue = LocaleCatalogue {
            current_locale: "en-US".to_owned(),
            fallback_locale: "en-US".to_owned(),
            translations: Vec::new(),
        };
        let ghost c0 = catalogue;
        catalogue.insert_translation("en-US", "settings.title", "Settings");
        let ghost c1 = catalogue;
        catalogue.insert_translation("en-US", "settings.general", "General");
        let ghost c2 = catalogue;
        catalogue.insert_translation("en-US", "settings.appearance", "Appearance");
        let ghost c3 = catalogue;
        catalogue.insert_translation("en-US", "settings.about", "About");
        let ghost c4 = catalogue;
        catalogue.insert_translation("en-US", "overview.search_placeholder", "Search, calculate or run");
        let ghost c5 = catalogue;
        catalogue.insert_translation("bn-IN", "settings.title", "সেটিংস");
        let ghost c6 = catalogue;
        catalogue.insert_translation("bn-IN", "settings.general", "সাধারণ");
        let ghost c7 = catalogue;
        catalogue.insert_translation("bn-IN", "settings.appearance", "চেহারা");
        let ghost c8 = catalogue;
        catalogue.insert_translation("bn-IN", "settings.about", "সম্পর্কে");
        let ghost c9 = catalogue;
        catalogue.insert_translation(
            "bn-IN",
            "overview.search_placeholder",
            "খুঁজুন, গণনা করুন বা চালান...",
        );
        proof {
            assert forall|l: Seq<char>, k: Seq<char>| #[trigger] catalogue.translation(l, k) == bundled_translation(l, k) by {
                lemma_inserted_reads(c0, c1, "en-US"@, "settings.title"@, "Settings"@, l, k);
                lemma_inserted_reads(c1, c2, "en-US"@, "settings.general"@, "General"@, l, k);
                lemma_inserted_reads(c2, c3, "en-US"@, "settings.appearance"@, "Appearance"@, l, k);
                lemma_inserted_reads(c3, c4, "en-US"@, "settings.about"@, "About"@, l, k);
                lemma_inserted_reads(
                    c4,
                    c5,
                    "en-US"@,
                    "overview.search_placeholder"@,
                    "Search, calculate or run"@,
                    l,
                    k,
                );
                lemma_inserted_reads(c5, c6, "bn-IN"@, "settings.title"@, "সেটিংস"@, l, k);
                lemma_inserted_reads(c6, c7, "bn-IN"@, "settings.general"@, "সাধারণ"@, l, k);
                lemma_inserted_reads(c7, c8, "bn-IN"@, "settings.appearance"@, "চেহারা"@, l, k);
                lemma_inserted_reads(c8, c9, "bn-IN"@, "settings.about"@, "সম্পর্কে"@, l, k);
                lemma_inserted_reads(
                    c9,
                    catalogue,
                    "bn-IN"@,
                    "overview.search_placeholder"@,
                    "খুঁজুন, গণনা করুন বা চালান..."@,
                    l,
                    k,
                );
                assert(dictionary(Seq::<(String, Vec<(String, String)>)>::empty(), l) is None);
            }
        }
        catalogue
    }
}

impl LocaleCatalogue {
    /// A catalogue for `locale` holding the bundled translations, with
    /// `en-US` as the fallback.
    pub fn new(locale: &str) -> (catalogue: Self)
        ensures
            catalogue.current_view() == locale@,
            catalogue.fallback_view() == "en-US"@,
            forall|l: Seq<char>, k: Seq<char>|
                #[trigger] catalogue.translation(l, k) == bundled_translation(l, k),
    {
        let mut catalogue = Self::default();
        let ghost bundled = catalogue;
        catalogue.current_locale = locale.to_owned();
        assert forall|l: Seq<char>, k: Seq<char>| #[trigger] catalogue.translation(l, k) == bundled_translation(l, k) by {
            assert(bundled.translation(l, k) == bundled_translation(l, k));
        }
        catalogue
    }

    /// The translation of `key` in `locale`, if the catalogue holds one.
    fn translation_of(&self, locale: &str, key: &str) -> (value: Option<String>)
        ensures
            value is Some == self.translation(locale@, key@) is Some,
            value matches Some(v) ==> Some(v@) == self.translation(locale@, key@),
    {
        let mut i: usize = 0;
        while i < self.translations.len()
            invariant
                i <= self.translations@.len(),
                forall|m: int| 0 <= m < i ==> self.translations@[m].0@ != locale@,
            ensures
                i <= self.translations@.len(),
                forall|m: int| 0 <= m < i ==> self.translations@[m].0@ != locale@,
                i < self.translations@.len() ==> self.translations@[i as int].0@ == locale@,
            decreases self.translations@.len() - i,
        {
            if str_eq(self.translations[i].0.as_str(), locale) {
                break;
            }
            i = i + 1;
        }
        if i == self.translations.len() {
            proof {
                lemma_dictionary_absent(self.translations@, locale@);
            }
            return None;
        }
        proof {
            lemma_dictionary_at(self.translations@, i as int, locale@);
        }
        let entries = &self.translations[i].1;
        let mut j: usize = 0;
        while j < entries.len()
            invariant
                j <= entries@.len(),
                forall|m: int| 0 <= m < j ==> entries@[m].0@ != key@,
            ensures
                j <= entries@.len(),
                forall|m: int| 0 <= m < j ==> entries@[m].0@ != key@,
                j < entries@.len() ==> entries@[j as int].0@ == key@,
            decreases entries@.len() - j,
        {
            if str_eq(entries[j].0.as_str(), key) {
                break;
            }
            j = j + 1;
        }
        if j == entries.len() {
            proof {
                lemma_entry_absent(entries@, key@);
            }
            return None;
        }
        proof {
            lemma_entry_at(entries@, j as int, key@);
        }
        Some(entries[j].1.clone())
    }

    /// The translation of `key` in the current locale, else in the fallback
    /// locale, else `key` itself.
    pub fn tr(&self, key: &str) -> (text: String)
        ensures
            text@ == self.lookup(key@),
    {
        if let Some(value) = self.translation_of(self.current_locale.as_str(), key) {
            return value;
        }
        if let Some(value) = self.translation_of(self.fallback_locale.as_str(), key) {
            return value;
        }
        key.to_owned()
    }

    /// `val` written in the digits of the current locale.
    pub fn format_number(&self, val: usize) -> (text: String)
        ensures
            text@ == localized_number(self.current_view(), val as nat),
    {
        proof {
            reveal_strlit("bn");
            lemma_decimal_bengali(val as nat);
        }
        let bengali = str_starts_with(self.current_locale.as_str(), "bn");
        let mut text = String::new();
        push_decimal(&mut text, val as u64, bengali);
        text
    }

    /// `singular` when `count` is one, else `plural`, with every `{count}`
    /// replaced by `count` in the digits of the current locale.
    pub fn pluralize(&self, count: usize, singular: &str, plural: &str) -> (text: String)
        ensures
            text@ == replace_all(
                if count == 1 {
                    singular@
                } else {
                    plural@
                },
                "{count}"@,
                localized_number(self.current_view(), count as nat),
            ),
    {
        let pattern = if count == 1 {
            singular
        } else {
            plural
        };
        let number = self.format_number(count);
        proof {
            reveal_strlit("{count}");
        }
        replace_all_str(pattern, "{count}", number.as_str())
    }

    /// Whether the current locale's language is written right to left:
    /// its language, lowercased, is `ar`, `he`, `fa` or `ur`.
    pub fn is_rtl(&self) -> (rtl: bool)
        ensures
            rtl == (lowercase(language(self.current_view())) == "ar"@ || lowercase(
                language(self.current_view()),
            ) == "he"@ || lowercase(language(self.current_view())) == "fa"@ || lowercase(
                language(self.current_view()),
            ) == "ur"@),
    {
        let cs = chars_of(self.current_locale.as_str());
        let ghost locale = self.current_view();
        let mut lang = String::new();
        let mut i: usize = 0;
        proof {
            assert(locale.skip(0) =~= locale);
        }
        while i < cs.len() && cs[i] != '-' && cs[i] != '_'
            invariant
                cs@ == locale,
                i <= cs@.len(),
                lang@ + language(locale.skip(i as int)) == language(locale),
            decreases cs@.len() - i,
        {
            assert(locale.skip(i as int).drop_first() =~= locale.skip(i + 1));
            assert(locale.skip(i as int)[0] == cs@[i as int]);
            push_char(&mut lang, cs[i]);
            assert(lang@ + language(locale.skip(i + 1)) =~= language(locale));
            i = i + 1;
        }
        assert(language(locale.skip(i as int)) =~= Seq::<char>::empty()) by {
            if i < cs@.len() {
                assert(locale.skip(i as int)[0] == cs@[i as int]);
            }
        }
        assert(lang@ =~= language(locale));
        let lower = to_lowercase(lang.as_str());
        str_eq(lower.as_str(), "ar") || str_eq(lower.as_str(), "he") || str_eq(lower.as_str(), "fa")
            || str_eq(lower.as_str(), "ur")
    }

    /// `text` when it has at most `max_len` characters, else its first
    /// `max_len - 1` characters (none when `max_len` is 0) followed by `…`.
    pub fn truncate_or_expand(&self, text: &str, max_len: usize) -> (shown: String)
        ensures
            shown@ == truncated(text@, max_len as nat),
    {
        let cs = chars_of(text);
        if cs.len() <= max_len {
            return text.to_owned();
        }
        let keep = if max_len == 0 {
            0
        } else {
            max_len - 1
        };
        let mut shown = String::new();
        let mut i: usize = 0;
        while i < keep
            invariant
                cs@ == text@,
                keep < cs@.len(),
                i <= keep,
                shown@ == text@.take(i as int),
            decreases keep - i,
        {
            push_char(&mut shown, cs[i]);
            assert(shown@ =~= text@.take(i + 1));
            i = i + 1;
        }
        push_char(&mut shown, '…');
        shown
    }

    /// The custom name when it has a non-blank one, else `Workspace` and the
    /// id in the current locale.
    pub fn workspace_label(&self, id: u64, custom_name: Option<&str>) -> (label: String)
        ensures
            label@ == (if custom_name is Some && !is_blank(custom_name->0@) {
                custom_name->0@
            } else if is_bengali(self.current_view()) {
                "ওয়ার্কস্পেস "@ + localized_number(self.current_view(), (id as usize) as nat)
            } else {
                "Workspace "@ + decimal(id as nat, false)
            }),
    {
        if let Some(name) = custom_name {
            if !str_is_blank(name) {
                return name.to_owned();
            }
        }
        proof {
            reveal_strlit("bn");
        }
        if str_starts_with(self.current_locale.as_str(), "bn") {
            let mut label = "ওয়ার্কস্পেস ".to_owned();
            let number = self.format_number(id as usize);
            label.append(number.as_str());
            label
        } else {
            let mut label = "Workspace ".to_owned();
            push_decimal(&mut label, id, false);
            label
        }
    }

    /// The accessibility status announcement of `message` for the current
    /// locale.
    pub fn announce_status(&self, message: &str) -> (text: String)
        ensures
            text@ == "[Announce ("@ + self.current_view() + ")] "@ + message@,
    {
        let mut text = "[Announce (".to_owned();
        text.append(self.current_locale.as_str());
        text.append(")] ");
        text.append(message);
        text
    }
}

/// A translation stored for the current locale is what [`LocaleCatalogue::tr`]
/// gives for its key from then on.
pub proof fn law_current_locale_insert_is_read_back(
    before: LocaleCatalogue,
    after: LocaleCatalogue,
    key: Seq<char>,
    value: Seq<char>,
)
    requires
        translation_inserted(before, after, before.current_view(), key, value),
    ensures
        after.lookup(key) == value,
{
}

/// A translation stored for the fallback locale is what
/// [`LocaleCatalogue::tr`] gives for a key the current locale does not
/// translate.
pub proof fn law_fallback_insert_fills_missing_key(
    before: LocaleCatalogue,
    after: LocaleCatalogue,
    key: Seq<char>,
    value: Seq<char>,
)
    requires
        translation_inserted(before, after, before.fallback_view(), key, value),
        before.translation(before.current_view(), key) is None,
    ensures
        after.lookup(key) == value,
{
    if before.current_view() != before.fallback_view() {
        assert(after.translation(after.current_view(), key) == before.translation(before.current_view(), key));
    }
}

/// Storing a translation for a locale that is neither the current nor the
/// fallback locale changes no lookup.
pub proof fn law_other_locale_insert_keeps_lookups(
    before: LocaleCatalogue,
    after: LocaleCatalogue,
    locale: Seq<char>,
    key: Seq<char>,
    value: Seq<char>,
)
    requires
        translation_inserted(before, after, locale, key, value),
        locale != before.current_view(),
        locale != before.fallback_view(),
    ensures
        forall|k: Seq<char>| #[trigger] after.lookup(k) == before.lookup(k),
{
    assert forall|k: Seq<char>| #[trigger] after.lookup(k) == before.lookup(k) by {
        assert(after.translation(before.current_view(), k) == before.translation(before.current_view(), k));
        assert(after.translation(before.fallback_view(), k) == before.translation(before.fallback_view(), k));
    }
}

/// A key that neither the current nor the fallback locale translates is
/// shown as the key itself.
pub proof fn law_untranslated_key_is_shown_as_is(catalogue: LocaleCatalogue, key: Seq<char>)
    requires
        catalogue.translation(catalogue.current_view(), key) is None,
        catalogue.translation(catalogue.fallback_view(), key) is None,
    ensures
        catalogue.lookup(key) == key,
{
}

/// Truncation never shows more than `max_len` characters (one, the
/// ellipsis, when `max_len` is 0), and shortened text is a prefix of the
/// text followed by `…`.
pub proof fn law_truncation_fits(text: Seq<char>, max_len: nat)
    ensures
        truncated(text, max_len).len() <= (if max_len == 0 {
            1
        } else {
            max_len
        }),
        text.len() <= max_len ==> truncated(text, max_len) == text,
        text.len() > max_len ==> truncated(text, max_len).last() == '…' && truncated(
            text,
            max_len,
        ).drop_last().is_prefix_of(text),
{
    if text.len() > max_len {
        let keep: int = if max_len == 0 {
            0
        } else {
            max_len - 1
        };
        assert(truncated(text, max_len).drop_last() =~= text.take(keep));
    }
}

/// A number has as many digits in every locale: Bengali digits replace the
/// Western ones one for one.
pub proof fn law_localized_number_keeps_digit_count(locale: Seq<char>, val: nat)
    ensures
        localized_number(locale, val).len() == decimal(val, false).len(),
        is_bengali(locale) ==> localized_number(locale, val) == decimal(val, true),
{
    lemma_decimal_bengali(val);
}

} // verus!
