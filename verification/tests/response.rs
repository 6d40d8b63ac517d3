use static_server::response::{decimal_string, Response, NOT_FOUND_PAGE, STATUS_NOT_FOUND, STATUS_OK};

fn found(content_type: &str, body: &[u8]) -> Response {
    Response::Found { content_type: content_type.to_string(), body: body.to_vec() }
}

#[test]
fn decimal_string_writes_single_digits() {
    let digits = ["0", "1", "2", "3", "4", "5", "6", "7", "8", "9"];
    for (n, d) in digits.iter().enumerate() {
        assert_eq!(decimal_string(n), *d);
    }
}

#[test]
fn decimal_string_writes_longer_numbers() {
    assert_eq!(decimal_string(10), "10");
    assert_eq!(decimal_string(99), "99");
    assert_eq!(decimal_string(100), "100");
    assert_eq!(decimal_string(1024), "1024");
    assert_eq!(decimal_string(9_876_543_210), "9876543210");
}

#[test]
fn decimal_string_writes_the_largest_number() {
    assert_eq!(decimal_string(usize::MAX), usize::MAX.to_string());
}

#[test]
fn decimal_string_agrees_with_std() {
    let mut n: usize = 0;
    while n < 20_000 {
        assert_eq!(decimal_string(n), n.to_string());
        n += 1;
    }
    let mut p: usize = 1;
    while p < usize::MAX / 10 {
        assert_eq!(decimal_string(p), p.to_string());
        assert_eq!(decimal_string(p - 1), (p - 1).to_string());
        assert_eq!(decimal_string(p + 1), (p + 1).to_string());
        p *= 10;
    }
}

#[test]
fn the_fixed_texts_are_exact() {
    assert_eq!(STATUS_OK, "HTTP/1.1 200 OK\r\n");
    assert_eq!(STATUS_NOT_FOUND, "HTTP/1.1 404 NOT FOUND\r\n");
    assert_eq!(NOT_FOUND_PAGE, "<h1>404 - Not Found uwehehe</h1>");
}

#[test]
fn found_has_status_200_and_announces_type_and_length() {
    let r = found("text/html", b"<p>hi</p>");
    assert_eq!(r.status_code(), 200);
    assert_eq!(r.content_type(), Some("text/html"));
    assert_eq!(r.content_length(), Some(9));
    assert_eq!(r.body(), b"<p>hi</p>");
}

#[test]
fn not_found_has_status_404_and_announces_nothing() {
    let r = Response::NotFound;
    assert_eq!(r.status_code(), 404);
    assert_eq!(r.content_type(), None);
    assert_eq!(r.content_length(), None);
    assert_eq!(r.body(), b"<h1>404 - Not Found uwehehe</h1>");
}

#[test]
fn head_of_found_is_status_line_two_headers_and_an_empty_line() {
    let r = found("text/css", b"body{}");
    assert_eq!(r.head(), "HTTP/1.1 200 OK\r\nContent-Type: text/css\r\nContent-Length: 6\r\n\r\n");
}

#[test]
fn head_of_not_found_is_status_line_and_an_empty_line() {
    assert_eq!(Response::NotFound.head(), "HTTP/1.1 404 NOT FOUND\r\n\r\n");
}

#[test]
fn to_bytes_of_found_is_head_then_body() {
    let r = found("text/plain", b"hello");
    assert_eq!(
        r.to_bytes(),
        b"HTTP/1.1 200 OK\r\nContent-Type: text/plain\r\nContent-Length: 5\r\n\r\nhello".to_vec()
    );
}

#[test]
fn to_bytes_of_an_empty_file_announces_length_zero() {
    let r = found("text/plain", b"");
    assert_eq!(r.content_length(), Some(0));
    assert_eq!(
        r.to_bytes(),
        b"HTTP/1.1 200 OK\r\nContent-Type: text/plain\r\nContent-Length: 0\r\n\r\n".to_vec()
    );
}

#[test]
fn to_bytes_keeps_a_body_that_is_no_text() {
    let body: Vec<u8> = vec![0, 255, 13, 10, 13, 10, 128, 7];
    let r = Response::Found { content_type: "image/png".to_string(), body: body.clone() };
    let mut expected = b"HTTP/1.1 200 OK\r\nContent-Type: image/png\r\nContent-Length: 8\r\n\r\n".to_vec();
    expected.extend_from_slice(&body);
    assert_eq!(r.to_bytes(), expected);
}

#[test]
fn to_bytes_encodes_a_wide_media_type_in_utf8() {
    let r = found("x/\u{e9}", b"a");
    let mut expected = "HTTP/1.1 200 OK\r\nContent-Type: x/\u{e9}\r\nContent-Length: 1\r\n\r\n".as_bytes().to_vec();
    expected.push(b'a');
    assert_eq!(r.to_bytes(), expected);
}

#[test]
fn to_bytes_of_not_found_is_exact() {
    assert_eq!(
        Response::NotFound.to_bytes(),
        b"HTTP/1.1 404 NOT FOUND\r\n\r\n<h1>404 - Not Found uwehehe</h1>".to_vec()
    );
}

#[test]
fn to_bytes_is_head_followed_by_body() {
    for r in [found("a/b", b"xyz"), Response::NotFound] {
        let mut expected = r.head().into_bytes();
        expected.extend_from_slice(r.body());
        assert_eq!(r.to_bytes(), expected);
    }
}

#[test]
fn content_length_is_the_length_of_a_large_body() {
    let body = vec![b'x'; 123_456];
    let r = Response::Found { content_type: "text/plain".to_string(), body };
    assert_eq!(r.content_length(), Some(123_456));
    assert!(r.head().contains("Content-Length: 123456\r\n"));
    assert_eq!(r.to_bytes().len(), r.head().len() + 123_456);
}
