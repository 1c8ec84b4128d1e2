use cdmenu::text::{chars_of, contains, decimal, starts_with, str_eq, trim};

#[test]
fn str_eq_compares_characters() {
    assert!(str_eq("PENDING", "PENDING"));
    assert!(!str_eq("PENDING", "PENDINg"));
    assert!(!str_eq("PENDING", "PENDIN"));
    assert!(str_eq("", ""));
    assert!(str_eq("grüße", "grüße"));
    assert!(!str_eq("grüße", "grusse"));
}

#[test]
fn chars_of_lists_every_character() {
    assert_eq!(chars_of("aé≠"), vec!['a', 'é', '≠']);
    assert_eq!(chars_of(""), Vec::<char>::new());
}

#[test]
fn contains_finds_a_substring_anywhere() {
    assert!(contains("pipeline_state_in_progress_paused", "paused"));
    assert!(contains("paused_state", "paused"));
    assert!(contains("a paused b", "paused"));
    assert!(!contains("pipeline_state_in_progress", "paused"));
    assert!(!contains("PAUSED", "paused"));
    assert!(!contains("pause", "paused"));
}

#[test]
fn contains_accepts_the_empty_needle() {
    assert!(contains("abc", ""));
    assert!(contains("", ""));
    assert!(!contains("", "a"));
}

#[test]
fn starts_with_checks_the_initial_segment() {
    assert!(starts_with("pipeline_3", "pipeline_"));
    assert!(starts_with("pipeline_", "pipeline_"));
    assert!(!starts_with("pipeline", "pipeline_"));
    assert!(!starts_with("my_pipeline_3", "pipeline_"));
    assert!(starts_with("anything", ""));
}

#[test]
fn decimal_writes_numbers_without_padding() {
    assert_eq!(decimal(0), "0");
    assert_eq!(decimal(7), "7");
    assert_eq!(decimal(10), "10");
    assert_eq!(decimal(42), "42");
    assert_eq!(decimal(1005), "1005");
    assert_eq!(decimal(u64::MAX), "18446744073709551615");
}

#[test]
fn trim_removes_surrounding_white_space_only() {
    assert_eq!(trim("  abc \n"), "abc");
    assert_eq!(trim("a b"), "a b");
    assert_eq!(trim("\t\r\n"), "");
    assert_eq!(trim(""), "");
    assert_eq!(trim("\u{a0}x\u{2003}"), "x");
}
