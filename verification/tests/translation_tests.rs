use christ::translations::{translation_index, translations, TRANSLATION_COUNT};

#[test]
fn portuguese_translations_include_naa() {
    let codes: Vec<&str> = translations().iter().filter(|t| t.lang == "Português").map(|t| t.code).collect();
    assert!(codes.contains(&"NAA"), "NAA must be in the picker");
    assert!(codes.contains(&"ARA"), "ARA preserved");
    assert!(codes.contains(&"ACF11"));
}

#[test]
fn mev_is_available_as_an_english_translation() {
    let all = translations();
    let mev = all.iter().find(|t| t.code == "MEV").expect("MEV must be in the picker");
    assert_eq!(mev.lang, "English");
    assert_eq!(mev.name, "Modern English Version");
}

#[test]
fn ara_display_name_includes_year() {
    let all = translations();
    let ara = all.iter().find(|t| t.code == "ARA").expect("ARA exists");
    assert!(ara.name.contains("1993"), "ARA must show its year so it's not confused with other Almeidas");
}

#[test]
fn catalogue_starts_with_the_bundled_kjv() {
    let all = translations();
    assert_eq!(all.len(), TRANSLATION_COUNT);
    assert_eq!(all[0].code, "KJV");
    assert!(all[0].offline);
    assert!(all[1..].iter().all(|t| !t.offline));
}

#[test]
fn translation_index_ignores_ascii_case() {
    assert_eq!(translation_index("kjv"), Some(0));
    assert_eq!(translation_index("Esv"), Some(4));
    assert_eq!(translation_index("XYZ"), None);
}
