use fltk_webview::text::{contains_bytes, last_segment, prefix_to_nul};

#[test]
fn prefix_without_nul_is_whole_input() {
    assert_eq!(prefix_to_nul(b"https://example.org"), b"https://example.org");
}

#[test]
fn prefix_of_empty_is_empty() {
    assert_eq!(prefix_to_nul(b""), Vec::<u8>::new());
}

#[test]
fn prefix_stops_at_first_nul() {
    assert_eq!(prefix_to_nul(b"abc\0def"), b"abc");
}

#[test]
fn prefix_with_leading_nul_is_empty() {
    assert_eq!(prefix_to_nul(b"\0abc"), Vec::<u8>::new());
}

#[test]
fn prefix_keeps_only_up_to_earliest_nul() {
    assert_eq!(prefix_to_nul(b"a\0b\0c"), b"a");
}

#[test]
fn last_segment_of_session_address() {
    assert_eq!(last_segment(b"local/host:@/tmp/.ICE-unix/2269"), b"2269");
}

#[test]
fn last_segment_without_separator_is_whole_input() {
    assert_eq!(last_segment(b"2269"), b"2269");
}

#[test]
fn last_segment_after_trailing_separator_is_empty() {
    assert_eq!(last_segment(b"a/b/"), Vec::<u8>::new());
}

#[test]
fn last_segment_of_empty_is_empty() {
    assert_eq!(last_segment(b""), Vec::<u8>::new());
}

#[test]
fn contains_finds_inner_needle() {
    assert!(contains_bytes(b"gnome-session-binary\n", b"gnome-session"));
}

#[test]
fn contains_finds_needle_at_start_and_end() {
    assert!(contains_bytes(b"abcde", b"abc"));
    assert!(contains_bytes(b"abcde", b"cde"));
    assert!(contains_bytes(b"abcde", b"abcde"));
}

#[test]
fn contains_rejects_absent_needle() {
    assert!(!contains_bytes(b"kwin_wayland\n", b"gnome-session"));
}

#[test]
fn contains_rejects_needle_longer_than_haystack() {
    assert!(!contains_bytes(b"ab", b"abc"));
}

#[test]
fn empty_needle_is_everywhere() {
    assert!(contains_bytes(b"", b""));
    assert!(contains_bytes(b"xyz", b""));
}

#[test]
fn contains_needs_consecutive_bytes() {
    assert!(!contains_bytes(b"a-b-c", b"abc"));
}
