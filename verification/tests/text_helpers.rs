use inx_eddn::text::{chars_of, contains_text, push_listed, text_eq, to_ascii_lowercase};

#[test]
fn contains_agrees_with_str_contains() {
    for (hay, needle) in [
        ("Ogmar A Belt Cluster 1", "Belt Cluster"),
        ("Ogmar A 1 A Ring", "Ring"),
        ("Ogmar A 6", "Ring"),
        ("", ""),
        ("abc", ""),
        ("", "a"),
        ("Rin", "Ring"),
        ("Ringo", "Ring"),
        ("Grüße Ring", "Ring"),
    ] {
        assert_eq!(contains_text(hay, needle), hay.contains(needle), "{} / {}", hay, needle);
    }
}

#[test]
fn lower_case_only_touches_ascii_letters() {
    assert_eq!(to_ascii_lowercase("AdvancedMedicines"), "advancedmedicines");
    assert_eq!(to_ascii_lowercase("ÄÖÜ Gold-9"), "ÄÖÜ gold-9");
    assert_eq!(to_ascii_lowercase("ÄÖÜ Gold-9"), "ÄÖÜ Gold-9".to_ascii_lowercase());
}

#[test]
fn comparisons_and_characters() {
    assert!(text_eq("FSDJump", "FSDJump"));
    assert!(!text_eq("FSDJump", "FSDJum"));
    assert!(!text_eq("a", "b"));
    assert_eq!(chars_of("añb"), vec!['a', 'ñ', 'b']);
}

#[test]
fn lists_get_commas_between_items() {
    let mut list = String::new();
    push_listed(&mut list, "dock");
    push_listed(&mut list, "autodock");
    assert_eq!(list, "dock,autodock");
    let mut list = String::new();
    push_listed(&mut list, "");
    push_listed(&mut list, "x");
    assert_eq!(list, "x");
}
