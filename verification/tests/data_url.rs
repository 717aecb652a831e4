use image_ingest::data_url::{decode_payload, parse_data_url, split_data_url, DataURL};
use image_ingest::mime_type::MimeType;
use regex::Regex;

fn captures(text: &str) -> Option<(String, String)> {
    split_data_url(text).map(|parts| (parts.type_tag, parts.payload))
}

fn pair(type_tag: &str, payload: &str) -> Option<(String, String)> {
    Some((type_tag.to_string(), payload.to_string()))
}

#[test]
fn parse_data_url_test() -> Result<(), String> {
    let url = "data:image/jpeg;base64,somedata";
    let data_url = parse_data_url(&url).ok_or("Parsing error!")?;
    assert_eq!(
        (data_url.type_.type_.as_str(), data_url.type_.subtype.as_str()),
        (mime::IMAGE_JPEG.type_().as_str(), mime::IMAGE_JPEG.subtype().as_str())
    );
    assert_eq!(data_url.data, "somedata".as_bytes());
    Ok(())
}

#[test]
fn text_without_structure_gives_nothing() {
    assert!(parse_data_url("").is_none());
    assert!(parse_data_url("somedata").is_none());
    assert!(parse_data_url("image/png;base64,AAAA").is_none());
    assert!(parse_data_url("data:image/png,AAAA").is_none());
    assert!(parse_data_url("data:image/png;base64").is_none());
    assert!(parse_data_url("http://example.com/pic.png").is_none());
}

#[test]
fn empty_type_tag_or_payload_gives_nothing() {
    assert_eq!(captures("data:;base64,AAAA"), None);
    assert_eq!(captures("data:image/png;base64,"), None);
    assert_eq!(captures("data:;base64,"), None);
}

#[test]
fn captures_are_type_tag_and_rest() {
    assert_eq!(captures("data:image/png;base64,AAAA"), pair("image/png", "AAAA"));
    assert_eq!(captures("data:a;base64,b"), pair("a", "b"));
}

#[test]
fn data_url_may_stand_anywhere_in_the_text() {
    assert_eq!(captures("see data:image/gif;base64,R0lG"), pair("image/gif", "R0lG"));
    assert_eq!(captures("datadata:x/y;base64,Zg=="), pair("x/y", "Zg=="));
}

#[test]
fn type_tag_ends_at_first_marker() {
    assert_eq!(
        captures("data:image/png;base64,AA;base64,BB"),
        pair("image/png", "AA;base64,BB")
    );
}

#[test]
fn marker_right_after_prefix_belongs_to_the_type_tag() {
    assert_eq!(captures("data:;base64,;base64,x"), pair(";base64,", "x"));
}

#[test]
fn leftmost_prefix_opens_the_data_url() {
    assert_eq!(
        captures("data:a data:image/png;base64,AAAA"),
        pair("a data:image/png", "AAAA")
    );
}

#[test]
fn payload_is_the_whole_rest_even_across_lines() {
    assert_eq!(
        captures("data:image/png;base64,AA\nBB"),
        pair("image/png", "AA\nBB")
    );
}

#[test]
fn characters_outside_ascii_are_counted_as_one() {
    assert_eq!(captures("é data:ü;base64,ñ"), pair("ü", "ñ"));
    let url = parse_data_url("data:image/png;base64,ñ").unwrap();
    assert_eq!(url.data, "ñ".as_bytes());
}

#[test]
fn type_tag_that_is_no_media_type_gives_nothing() {
    assert!(parse_data_url("data:image;base64,AAAA").is_none());
    assert!(parse_data_url("data:not a type;base64,AAAA").is_none());
}

#[test]
fn media_type_is_read_in_lower_case() {
    let url = parse_data_url("data:IMAGE/PNG;base64,AAAA").unwrap();
    assert_eq!(url.type_.type_, "image");
    assert_eq!(url.type_.subtype, "png");
    assert!(url.type_.is_image());
}

#[test]
fn data_url_of_another_type_is_parsed_but_is_no_image() {
    let url = parse_data_url("data:text/plain;base64,aGVsbG8=").unwrap();
    assert_eq!(url.type_.type_, "text");
    assert_eq!(url.type_.subtype, "plain");
    assert!(!url.type_.is_image());
}

#[test]
fn from_parts_keeps_type_and_payload_bytes() {
    let mime = MimeType { type_: "image".to_string(), subtype: "gif".to_string() };
    let url: DataURL = DataURL::from_parts(Some(mime), "R0lG").unwrap();
    assert_eq!(url.type_.subtype, "gif");
    assert_eq!(url.data, b"R0lG".to_vec());
    assert!(DataURL::from_parts(None, "R0lG").is_none());
}

#[test]
fn captures_agree_with_the_pattern() {
    let pattern = Regex::new(r"(?s)data:(?P<type>.+?);base64,(?P<data>.+)").unwrap();
    let texts = [
        "",
        "data:",
        "data:image/jpeg;base64,somedata",
        "data:;base64,x",
        "data:x;base64,",
        "data:;base64,;base64,x",
        "xdata:a;base64,b;base64,c",
        "data:a;base64,\ndata:b;base64,x",
        "data:a\nb;base64,c\nd",
        "data:data:;base64,;base64,",
        ";base64,data:image/png;base64,AAAA",
        "Data:image/png;base64,AAAA",
        "data:image/png;BASE64,AAAA",
        "data:é;base64,ü",
    ];
    for text in texts {
        let expected = pattern.captures(text).map(|found| {
            (found["type"].to_string(), found["data"].to_string())
        });
        assert_eq!(captures(text), expected, "on {:?}", text);
    }
}

#[test]
fn payload_decodes_as_standard_base64() {
    assert_eq!(decode_payload(b"aGVsbG8="), Ok(b"hello".to_vec()));
    assert_eq!(decode_payload(b""), Ok(Vec::new()));
    assert_eq!(decode_payload(b"AAAA"), Ok(vec![0, 0, 0]));
}

#[test]
fn payload_that_is_no_base64_is_refused() {
    assert!(decode_payload(b"%%%invalid%%%").is_err());
    assert!(decode_payload(b"somedata\n").is_err());
    assert!(decode_payload(b"A").is_err());
}

#[test]
fn captures_agree_with_the_pattern_on_generated_texts() {
    let pattern = Regex::new(r"(?s)data:(?P<type>.+?);base64,(?P<data>.+)").unwrap();
    let pieces = ["data:", ";base64,", "data", ";base64", "x", "d", ";", ",", ":", "\n", "é", "a/b"];
    let mut state: u64 = 0x2545_f491_4f6c_dd1d;
    let mut found = 0;
    for _ in 0..20000 {
        let mut text = String::new();
        state = state.wrapping_mul(6364136223846793005).wrapping_add(1442695040888963407);
        let count = (state >> 60) as usize % 8;
        for _ in 0..count {
            state = state.wrapping_mul(6364136223846793005).wrapping_add(1442695040888963407);
            text.push_str(pieces[(state >> 33) as usize % pieces.len()]);
        }
        let expected = pattern.captures(&text).map(|found| {
            (found["type"].to_string(), found["data"].to_string())
        });
        if expected.is_some() {
            found += 1;
        }
        assert_eq!(captures(&text), expected, "on {:?}", text);
    }
    assert!(found > 100);
}
