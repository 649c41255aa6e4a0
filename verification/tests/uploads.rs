use beak::header::{
    bytes_eq_ignoring_case, bytes_occur_at, find_bytes_from, find_header, to_ascii_lower, Header,
};
use beak::upload::{
    boundary_in_content_type, multipart_boundary, parse_first_part, store_part, OverflowPolicy,
    ParsedPart, UploadBuffer,
};
use beak::BeakError;

fn header(field: &str, value: &str) -> Header {
    Header::new(field.to_string(), value.to_string()).unwrap()
}

fn form_headers(boundary: &str) -> Vec<Header> {
    vec![
        header("Host", "localhost:8000"),
        header("content-type", &format!("multipart/form-data; boundary={boundary}")),
        header("Content-Type", "text/plain; boundary=ignored"),
    ]
}

fn one_part(boundary: &str, disposition: &str, content_type: Option<&str>, data: &[u8]) -> Vec<u8> {
    let mut body = Vec::new();
    body.extend_from_slice(format!("--{boundary}\r\n").as_bytes());
    body.extend_from_slice(format!("Content-Disposition: {disposition}\r\n").as_bytes());
    if let Some(ct) = content_type {
        body.extend_from_slice(format!("Content-Type: {ct}\r\n").as_bytes());
    }
    body.extend_from_slice(b"\r\n");
    body.extend_from_slice(data);
    body.extend_from_slice(format!("\r\n--{boundary}--\r\n").as_bytes());
    body
}

#[test]
fn ascii_letters_are_lowered() {
    assert_eq!(to_ascii_lower(b'A'), b'a');
    assert_eq!(to_ascii_lower(b'Z'), b'z');
    assert_eq!(to_ascii_lower(b'a'), b'a');
    assert_eq!(to_ascii_lower(b'@'), b'@');
    assert_eq!(to_ascii_lower(b'['), b'[');
    assert_eq!(to_ascii_lower(0xc9), 0xc9);
}

#[test]
fn field_names_are_compared_without_case() {
    assert!(bytes_eq_ignoring_case(b"Content-Type", b"content-type"));
    assert!(bytes_eq_ignoring_case(b"", b""));
    assert!(!bytes_eq_ignoring_case(b"Content-Type", b"Content-Typ"));
    assert!(!bytes_eq_ignoring_case(b"Content-Type", b"Content_Type"));
    assert!(header("CONTENT-TYPE", "x").field_is("Content-Type"));
    assert!(!header("Content-Length", "1").field_is("Content-Type"));
}

#[test]
fn first_header_of_a_field_is_found() {
    let headers = form_headers("X");
    assert_eq!(find_header(&headers, "Content-Type"), Some(1));
    assert_eq!(find_header(&headers, "HOST"), Some(0));
    assert_eq!(find_header(&headers, "Accept"), None);
    assert_eq!(find_header(&[], "Host"), None);
}

#[test]
fn byte_strings_are_searched_from_a_position() {
    assert!(bytes_occur_at(b"abcabc", b"bc", 1));
    assert!(!bytes_occur_at(b"abcabc", b"bc", 2));
    assert!(!bytes_occur_at(b"abcabc", b"bc", 5));
    assert!(bytes_occur_at(b"abc", b"", 3));
    assert!(!bytes_occur_at(b"abc", b"", 4));
    assert_eq!(find_bytes_from(b"abcabc", b"bc", 0), Some(1));
    assert_eq!(find_bytes_from(b"abcabc", b"bc", 2), Some(4));
    assert_eq!(find_bytes_from(b"abcabc", b"bc", 5), None);
    assert_eq!(find_bytes_from(b"abcabc", b"cb", 0), None);
    assert_eq!(find_bytes_from(b"abc", b"", 3), Some(3));
    assert_eq!(find_bytes_from(b"abc", b"", 4), None);
    assert_eq!(find_bytes_from(b"", b"a", 0), None);
}

#[test]
fn boundary_is_read_from_the_content_type() {
    let cases = [
        ("multipart/form-data; boundary=abc123", Some("abc123")),
        ("multipart/form-data; boundary=abc; charset=utf-8", Some("abc")),
        ("multipart/form-data;boundary=\"quoted\"", Some("\"quoted\"")),
        ("boundary=", Some("")),
        ("boundary=;", Some("")),
        ("boundary=a;boundary=b", Some("a")),
        ("multipart/form-data", None),
        ("multipart/form-data; Boundary=abc", None),
        ("", None),
        ("multipart/form-data; boundary=\u{e9}", None),
    ];
    for (value, expected) in cases {
        assert_eq!(boundary_in_content_type(value).as_deref(), expected, "{value}");
    }
}

#[test]
fn header_lines_are_ascii() {
    let line = header("X-Cat", "nya nya");
    assert_eq!(line.field(), "X-Cat");
    assert_eq!(line.value(), "nya nya");
    assert!(Header::new(String::new(), String::new()).is_some());
    assert!(Header::new("X-Caf\u{e9}".to_string(), "x".to_string()).is_none());
    assert!(Header::new("X-Cat".to_string(), "ny\u{e5}".to_string()).is_none());
}

#[test]
fn boundary_comes_from_the_first_content_type_line() {
    assert_eq!(multipart_boundary(&form_headers("first")).as_deref(), Some("first"));
    assert_eq!(multipart_boundary(&[header("Host", "boundary=x")]), None);
    let shadowed = [header("Content-Type", "text/plain"), header("Content-Type", "a; boundary=b")];
    assert_eq!(multipart_boundary(&shadowed), None);
}

#[test]
fn well_formed_single_part_is_read_exactly() {
    let data: Vec<u8> = (0u8..=255).collect();
    let body = one_part(
        "----frontier",
        "form-data; name=\"upload\"; filename=\"cat.png\"",
        Some("image/png"),
        &data,
    );
    let part = parse_first_part(&form_headers("----frontier"), &body).unwrap();
    assert_eq!(part.name, "upload");
    assert_eq!(part.file_name.as_deref(), Some("cat.png"));
    assert_eq!(part.content_type.as_deref(), Some("image/png"));
    assert_eq!(part.data, data);
}

#[test]
fn part_without_file_name_and_content_type_is_read() {
    let body = one_part("b", "form-data; name=\"note\"", None, b"owo");
    let part = parse_first_part(&form_headers("b"), &body).unwrap();
    assert_eq!(part.name, "note");
    assert_eq!(part.file_name, None);
    assert_eq!(part.content_type, None);
    assert_eq!(part.data, b"owo");
}

#[test]
fn content_type_comes_in_the_normal_form_of_the_media_type() {
    let cases = [
        ("Image/PNG", "image/png"),
        ("text/plain; Charset=UTF-8", "text/plain; charset=utf-8"),
        ("TEXT/Plain; Name=\"A B\"", "text/plain; name=\"A B\""),
    ];
    for (declared, seen) in cases {
        let body = one_part("b", "form-data; name=\"f\"", Some(declared), b"x");
        let part = parse_first_part(&form_headers("b"), &body).unwrap();
        assert_eq!(part.content_type.as_deref(), Some(seen));
    }
    let body = one_part("b", "form-data; name=\"f\"", Some("not a media type"), b"x");
    assert!(parse_first_part(&form_headers("b"), &body).is_none());
}

#[test]
fn only_the_first_part_is_read() {
    let mut body = Vec::new();
    body.extend_from_slice(b"--b\r\nContent-Disposition: form-data; name=\"one\"\r\n\r\nfirst\r\n");
    body.extend_from_slice(b"--b\r\nContent-Disposition: form-data; name=\"two\"\r\n\r\nsecond\r\n");
    body.extend_from_slice(b"--b--\r\n");
    let part = parse_first_part(&form_headers("b"), &body).unwrap();
    assert_eq!(part.name, "one");
    assert_eq!(part.data, b"first");
}

#[test]
fn request_without_a_part_has_no_upload() {
    assert!(parse_first_part(&form_headers("b"), b"").is_none());
    assert!(parse_first_part(&form_headers("b"), b"--b--\r\n").is_none());
    assert!(parse_first_part(&form_headers("b"), b"no multipart here").is_none());
    let body = one_part("b", "form-data; name=\"note\"", None, b"owo");
    assert!(parse_first_part(&form_headers("other"), &body).is_none());
    assert!(parse_first_part(&[header("Content-Type", "text/plain")], &body).is_none());
    assert!(parse_first_part(&[], &body).is_none());
}

#[test]
fn malformed_part_headers_give_no_upload() {
    let body = one_part("b", "attachment; name=\"note\"", None, b"owo");
    assert!(parse_first_part(&form_headers("b"), &body).is_none());
    let missing = b"--b\r\nContent-Type: text/plain\r\n\r\nowo\r\n--b--\r\n";
    assert!(parse_first_part(&form_headers("b"), missing).is_none());
}

fn part(data: &[u8]) -> ParsedPart {
    ParsedPart {
        name: "file".to_string(),
        file_name: Some("a.bin".to_string()),
        content_type: Some("application/octet-stream".to_string()),
        data: data.to_vec(),
    }
}

#[test]
fn data_that_fits_is_stored_whole() {
    let mut buffer = UploadBuffer::with_capacity(5);
    assert_eq!(buffer.limit(), 5);
    assert!(buffer.contents().is_empty());
    for policy in [OverflowPolicy::Reject, OverflowPolicy::Truncate] {
        assert_eq!(buffer.store(b"12345", policy).unwrap(), false);
        assert_eq!(buffer.contents(), b"12345");
        assert_eq!(buffer.store(b"", policy).unwrap(), false);
        assert_eq!(buffer.contents(), b"");
    }
}

#[test]
fn oversized_data_is_truncated_under_truncate() {
    let mut buffer = UploadBuffer::with_capacity(5);
    assert_eq!(buffer.store(b"123456", OverflowPolicy::Truncate).unwrap(), true);
    assert_eq!(buffer.contents(), b"12345");
    let mut empty = UploadBuffer::with_capacity(0);
    assert_eq!(empty.store(b"x", OverflowPolicy::Truncate).unwrap(), true);
    assert_eq!(empty.contents(), b"");
}

#[test]
fn oversized_data_is_rejected_under_reject() {
    let mut buffer = UploadBuffer::with_capacity(5);
    buffer.store(b"abc", OverflowPolicy::Reject).unwrap();
    let res = buffer.store(b"123456", OverflowPolicy::Reject);
    assert!(matches!(res, Err(BeakError::UploadTooLarge { limit: 5, size: 6 })));
    assert!(buffer.contents().is_empty());
    assert_eq!(buffer.limit(), 5);
}

#[test]
fn buffer_is_overwritten_not_appended() {
    let mut buffer = UploadBuffer::with_capacity(8);
    buffer.store(b"first!!", OverflowPolicy::Reject).unwrap();
    buffer.store(b"two", OverflowPolicy::Reject).unwrap();
    assert_eq!(buffer.contents(), b"two");
    buffer.clear();
    assert!(buffer.contents().is_empty());
    assert_eq!(buffer.limit(), 8);
}

#[test]
fn entry_carries_the_part_and_the_buffered_data() {
    let mut buffer = UploadBuffer::with_capacity(4);
    {
        let entry = store_part(&mut buffer, part(b"abcd"), OverflowPolicy::Reject).unwrap();
        assert_eq!(entry.name, "file");
        assert_eq!(entry.file_name.as_deref(), Some("a.bin"));
        assert_eq!(entry.content_type.as_deref(), Some("application/octet-stream"));
        assert_eq!(entry.data, b"abcd");
        assert!(!entry.truncated);
    }
    {
        let entry = store_part(&mut buffer, part(b"abcdef"), OverflowPolicy::Truncate).unwrap();
        assert_eq!(entry.data, b"abcd");
        assert!(entry.truncated);
    }
    let res = store_part(&mut buffer, part(b"abcdef"), OverflowPolicy::Reject);
    assert!(matches!(res, Err(BeakError::UploadTooLarge { limit: 4, size: 6 })));
    assert!(buffer.contents().is_empty());
}
