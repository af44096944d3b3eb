use lyra_vega_dbus::text::{fill_detail_text, replace_all_text, same_text};

#[test]
fn placeholders_are_replaced_left_to_right() {
    assert_eq!(fill_detail_text("a {detail} b {detail}", "X"), "a X b X");
    assert_eq!(fill_detail_text("no placeholder", "X"), "no placeholder");
    assert_eq!(fill_detail_text("{detail}", ""), "");
    assert_eq!(fill_detail_text("{det", "X"), "{det");
    assert_eq!(fill_detail_text("indisponível: {detail}", "ção"), "indisponível: ção");
}

#[test]
fn replacement_matches_std_replace() {
    for (s, pat, rep) in [
        ("aaaa", "aa", "b"),
        ("abcabc", "bc", "XY"),
        ("xyz", "q", "r"),
        ("", "a", "b"),
        ("ééé", "é", "e"),
    ] {
        assert_eq!(replace_all_text(s, pat, rep), s.replace(pat, rep));
    }
}

#[test]
fn texts_compare_by_characters() {
    assert!(same_text("abc", "abc"));
    assert!(!same_text("abc", "abd"));
    assert!(!same_text("abc", "ab"));
    assert!(same_text("", ""));
}
