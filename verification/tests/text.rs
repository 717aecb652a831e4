use image_ingest::text::{find, matches_at, to_chars};

fn chars(text: &str) -> Vec<char> {
    text.chars().collect()
}

#[test]
fn text_is_taken_apart_by_characters() {
    assert_eq!(to_chars(""), Vec::<char>::new());
    assert_eq!(to_chars("a;b"), vec!['a', ';', 'b']);
    assert_eq!(to_chars("é✓"), vec!['é', '✓']);
}

#[test]
fn pattern_is_matched_in_place() {
    let text = chars("abcabc");
    assert!(matches_at(&text, &chars("abc"), 0));
    assert!(matches_at(&text, &chars("abc"), 3));
    assert!(!matches_at(&text, &chars("abc"), 1));
    assert!(!matches_at(&text, &chars("abc"), 4));
    assert!(!matches_at(&text, &chars("abc"), 7));
    assert!(!matches_at(&text, &chars("abcabca"), 0));
    assert!(matches_at(&text, &chars(""), 6));
    assert!(!matches_at(&text, &chars(""), 7));
    assert!(!matches_at(&text, &chars("a"), usize::MAX));
}

#[test]
fn first_occurrence_is_found() {
    let text = chars("xx;base64,;base64,");
    let marker = chars(";base64,");
    assert_eq!(find(&text, &marker, 0), Some(2));
    assert_eq!(find(&text, &marker, 2), Some(2));
    assert_eq!(find(&text, &marker, 3), Some(10));
    assert_eq!(find(&text, &marker, 11), None);
    assert_eq!(find(&text, &marker, 100), None);
    assert_eq!(find(&text, &chars(""), 18), Some(18));
    assert_eq!(find(&text, &chars(""), 19), None);
    assert_eq!(find(&chars(""), &marker, 0), None);
}
