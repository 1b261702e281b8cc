use obito::text::contains;
use obito::text::contains_ignoring_case;
use obito::text::title_or_default;
use obito::text::window_title;

#[test]
fn contains_finds_a_substring() {
    assert!(contains("Surface Lost", "Lost"));
    assert!(contains("GPU OutOfMemory", "OutOfMemory"));
    assert!(contains("Lost", "Lost"));
    assert!(contains("abcabd", "abd"));
}

#[test]
fn contains_is_case_sensitive() {
    assert!(!contains("Surface lost", "Lost"));
    assert!(!contains("out of memory", "OutOfMemory"));
}

#[test]
fn contains_edge_cases() {
    assert!(contains("abc", ""));
    assert!(contains("", ""));
    assert!(!contains("", "a"));
    assert!(!contains("ab", "abc"));
    assert!(contains("Ōbito ☀ engine", "☀ e"));
}

#[test]
fn title_of_a_null_pointer_is_the_default() {
    assert_eq!(window_title(None), "Obito Engine");
}

#[test]
fn title_of_utf8_bytes_is_their_text() {
    assert_eq!(window_title(Some(b"My Game")), "My Game");
    assert_eq!(window_title(Some("Ōbito".as_bytes())), "Ōbito");
    assert_eq!(window_title(Some(b"")), "");
}

#[test]
fn title_of_invalid_utf8_is_the_default() {
    assert_eq!(window_title(Some(&[0xff, 0xfe, 0x41])), "Obito Engine");
    assert_eq!(window_title(Some(&[0x41, 0xc3])), "Obito Engine");
}

#[test]
fn title_or_default_keeps_decoded_text() {
    assert_eq!(title_or_default(Some("Demo".to_string())), "Demo");
    assert_eq!(title_or_default(None), "Obito Engine");
}

#[test]
fn contains_ignoring_case_folds_ascii_letters() {
    assert!(contains_ignoring_case("Surface lost", "Lost"));
    assert!(contains_ignoring_case("SURFACE LOST", "lost"));
    assert!(contains_ignoring_case("gpu OutOfMemory", "outofmemory"));
    assert!(!contains_ignoring_case("Surface outdated", "Lost"));
    assert!(!contains_ignoring_case("Surface error occurred", "OutOfMemory"));
    assert!(contains_ignoring_case("abc", ""));
    assert!(!contains_ignoring_case("", "a"));
    assert!(!contains_ignoring_case("Ō", "ō"));
    assert!(contains_ignoring_case("x[Z]@", "[z]@"));
}
