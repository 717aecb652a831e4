use image_ingest::guard::MultipartHeaderGuard;
use image_ingest::text::starts_with;

#[test]
fn multipart_upload_is_let_through() {
    let guard = MultipartHeaderGuard {};
    assert!(guard.check(Some("multipart/form-data; boundary=abc")));
    assert!(guard.check(Some("multipart/form-data;")));
}

#[test]
fn other_requests_are_held_back() {
    let guard = MultipartHeaderGuard {};
    assert!(!guard.check(None));
    assert!(!guard.check(Some("")));
    assert!(!guard.check(Some("multipart/form-data")));
    assert!(!guard.check(Some("application/json")));
    assert!(!guard.check(Some(" multipart/form-data; boundary=abc")));
    assert!(!guard.check(Some("Multipart/Form-Data; boundary=abc")));
}

#[test]
fn prefix_test_is_exact() {
    assert!(starts_with("abc", ""));
    assert!(starts_with("abc", "ab"));
    assert!(starts_with("abc", "abc"));
    assert!(!starts_with("abc", "abcd"));
    assert!(!starts_with("abc", "bc"));
    assert!(starts_with("", ""));
}
