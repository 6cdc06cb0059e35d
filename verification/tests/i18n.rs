use ultradian_work::i18n::{t, translation_entry, Language, TRANSLATION_COUNT};

fn all_entries() -> Vec<(&'static str, &'static str, &'static str)> {
    (0..TRANSLATION_COUNT)
        .map(|i| translation_entry(i).expect("entry within the table"))
        .collect()
}

#[test]
fn all_translations_present() {
    let table = all_entries();
    assert!(!table.is_empty());
    for (key, en, es) in table {
        assert!(!en.is_empty(), "Missing EN translation for {key}");
        assert!(!es.is_empty(), "Missing ES translation for {key}");
    }
}

#[test]
fn keys_are_unique() {
    let mut keys: Vec<&str> = all_entries().iter().map(|(k, _, _)| *k).collect();
    let total = keys.len();
    keys.sort_unstable();
    keys.dedup();
    assert_eq!(keys.len(), total, "Duplicate keys in TRANSLATIONS");
}

#[test]
fn unknown_key_returns_empty() {
    assert_eq!(t(&Language::En, "no_such_key"), "");
    assert_eq!(t(&Language::Es, "no_such_key"), "");
}

#[test]
fn known_keys_translate_per_language() {
    assert_eq!(t(&Language::En, "session_label"), "Session");
    assert_eq!(t(&Language::Es, "session_label"), "Sesión");
    assert_eq!(t(&Language::Es, "error_empty_name"), "El nombre no puede estar vacío");
    assert_eq!(t(&Language::En, "wayland_warning"), "Wayland detected: install brightnessctl for dim support");
    assert_eq!(t(&Language::Es, "tab_ultradian"), "🍅 Temporizador Ultradiano");
}

#[test]
fn entry_past_the_table_is_none() {
    assert!(translation_entry(TRANSLATION_COUNT).is_none());
    assert_eq!(translation_entry(0).unwrap().0, "tab_ultradian");
}

#[test]
fn default_language_is_spanish() {
    assert_eq!(Language::default(), Language::Es);
    assert_eq!(ultradian_work::models::default_language(), Language::Es);
}
