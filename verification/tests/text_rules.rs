use math_circle_board::text::{
    char_count, contains_text, is_blank, starts_with_text, text_eq, trimmed, valid_label,
};

#[test]
fn labels_are_trimmed_before_counting() {
    assert!(valid_label("  Ada  ", 3));
    assert!(!valid_label("  Ada  ", 2));
    assert!(!valid_label(" \t\n\u{3000} ", 60));
    assert!(valid_label("\u{a0}Émilie\u{2003}", 6));
    assert!(!valid_label("Émilie!", 6));
}

#[test]
fn trimming_matches_unicode_whitespace() {
    assert_eq!(trimmed("\u{2028} Noether \u{85}"), "Noether");
    assert_eq!(trimmed("a b"), "a b");
    assert_eq!(trimmed("   "), "");
    assert_eq!(trimmed(trimmed("\t x \t")), trimmed("\t x \t"));
    assert!(is_blank(" \r\n"));
    assert!(!is_blank(" x "));
}

#[test]
fn characters_are_counted_not_bytes() {
    assert_eq!(char_count("héllo"), 5);
    assert_eq!(char_count(""), 0);
}

#[test]
fn substring_tests() {
    assert!(contains_text("UNIQUE constraint failed", "UNIQUE"));
    assert!(!contains_text("unique", "UNIQUE"));
    assert!(contains_text("abc", ""));
    assert!(starts_with_text("/assets/app.js", "/assets/"));
    assert!(!starts_with_text("/asset", "/assets/"));
    assert!(text_eq("Gauss", "Gauss"));
    assert!(!text_eq("Gauss", "gauss"));
}
