use amp_sync::protocol::{contains_bytes, reply_holds};
use amp_sync::status::{first_child_text, parse_secs, status_field, StatusError};

const DOC: &str = "<?xml version=\"1.0\"?><status etag=\"4e2\"><state>stream</state><inputId>input2</inputId><secs>42</secs><empty/><state>play</state></status>";

#[test]
fn field_found() {
    assert_eq!(status_field(DOC, "state"), Ok("stream".to_string()));
    assert_eq!(status_field(DOC, "inputId"), Ok("input2".to_string()));
    assert_eq!(status_field(DOC, "secs"), Ok("42".to_string()));
}

#[test]
fn field_absent_or_without_text_is_empty() {
    assert_eq!(status_field(DOC, "volume"), Ok(String::new()));
    assert_eq!(status_field(DOC, "empty"), Ok(String::new()));
    assert_eq!(status_field(DOC, "status"), Ok(String::new()));
}

#[test]
fn malformed_document() {
    assert_eq!(status_field("<status><state>stream</status>", "state"), Err(StatusError::Malformed));
    assert_eq!(status_field("not xml", "state"), Err(StatusError::Malformed));
}

#[test]
fn first_child_wins() {
    let tags = vec![
        ("a".to_string(), Some("1".to_string())),
        ("b".to_string(), None),
        ("a".to_string(), Some("2".to_string())),
    ];
    assert_eq!(first_child_text(&tags, &"a".to_string()), "1");
    assert_eq!(first_child_text(&tags, &"b".to_string()), "");
    assert_eq!(first_child_text(&tags, &"c".to_string()), "");
}

#[test]
fn secs_numbers() {
    assert_eq!(parse_secs("15"), Ok(15));
    assert_eq!(parse_secs("0"), Ok(0));
    assert_eq!(parse_secs("+7"), Ok(7));
    assert_eq!(parse_secs("-3"), Ok(-3));
    assert_eq!(parse_secs("2147483647"), Ok(2147483647));
}

#[test]
fn secs_not_numbers() {
    for t in ["", "abc", " 5", "5 ", "-", "+", "1.5", "2147483648"] {
        assert_eq!(parse_secs(t), Err(StatusError::NotANumber), "{:?}", t);
    }
}

#[test]
fn byte_search() {
    assert!(contains_bytes(b"power=standby$....", b"power=standby$"));
    assert!(contains_bytes(b"xx power=on$", b"power=on$"));
    assert!(!contains_bytes(b"power=o", b"power=on$"));
    assert!(contains_bytes(b"abc", b""));
    assert!(!contains_bytes(b"", b"a"));
    let mut frame = vec![0u8; 64];
    frame[..12].copy_from_slice(b"source=aux1$");
    assert!(reply_holds(&frame, "source=aux1$"));
    assert!(!reply_holds(&frame, "power=on$"));
    assert!(!reply_holds(&[0xff, 0xfe, b's'], "source=aux1$"));
}
