use image_ingest::allocator::{filename_from, uuid_filename, TOKEN_LEN};
use image_ingest::mime_type::MimeType;
use std::collections::HashSet;

fn image_jpeg() -> MimeType {
    MimeType {
        type_: mime::IMAGE_JPEG.type_().as_str().to_string(),
        subtype: mime::IMAGE_JPEG.subtype().as_str().to_string(),
    }
}

#[test]
fn unique_uuid() {
    assert_ne!(uuid_filename(&image_jpeg()), uuid_filename(&image_jpeg()));
}

#[test]
fn many_allocations_are_pairwise_distinct() {
    let mut seen = HashSet::new();
    for _ in 0..1000 {
        assert!(seen.insert(uuid_filename(&image_jpeg())));
    }
    assert_eq!(seen.len(), 1000);
}

#[test]
fn name_is_token_dot_subtype() {
    let name = uuid_filename(&image_jpeg());
    assert_eq!(TOKEN_LEN, 36);
    assert_eq!(name.len(), 36 + 1 + 4);
    assert!(name.ends_with(".jpeg"));
    let token = &name[..36];
    for (i, c) in token.chars().enumerate() {
        if i == 8 || i == 13 || i == 18 || i == 23 {
            assert_eq!(c, '-');
        } else {
            assert!(c.is_ascii_digit() || ('a'..='f').contains(&c), "{:?} at {}", c, i);
        }
    }
    assert_eq!(token.as_bytes()[14], b'4');
    assert!(b"89ab".contains(&token.as_bytes()[19]));
    assert!(uuid::Uuid::parse_str(token).is_ok());
}

#[test]
fn subtype_is_taken_verbatim() {
    let odd = MimeType { type_: "image".to_string(), subtype: "x-odd.thing".to_string() };
    assert!(uuid_filename(&odd).ends_with(".x-odd.thing"));
    let empty = MimeType { type_: "image".to_string(), subtype: String::new() };
    let name = uuid_filename(&empty);
    assert_eq!(name.len(), 37);
    assert!(name.ends_with('.'));
}

#[test]
fn filename_joins_token_and_extension() {
    let token = "3fae2c1e-0b7d-4c55-9a40-6f1d2e3c4b5a".to_string();
    assert_eq!(
        filename_from(token, "png"),
        "3fae2c1e-0b7d-4c55-9a40-6f1d2e3c4b5a.png"
    );
    assert_eq!(filename_from("t".to_string(), ""), "t.");
}
