use static_server::handler::{route, route_text, serve_file, REQUEST_BUFFER_SIZE};
use static_server::response::Response;

fn padded(request: &[u8]) -> Vec<u8> {
    let mut buffer = vec![0u8; REQUEST_BUFFER_SIZE];
    buffer[..request.len()].copy_from_slice(request);
    buffer
}

#[test]
fn the_request_buffer_holds_1024_bytes() {
    assert_eq!(REQUEST_BUFFER_SIZE, 1024);
}

#[test]
fn route_text_sends_get_to_the_resolved_file() {
    assert_eq!(route_text("GET /style.css HTTP/1.1\r\n\r\n"), Some("public/style.css".to_string()));
    assert_eq!(route_text("GET / HTTP/1.1\r\n\r\n"), Some("public/index.html".to_string()));
}

#[test]
fn route_text_ignores_other_methods() {
    assert_eq!(route_text("POST /index.html HTTP/1.1\r\n\r\n"), None);
    assert_eq!(route_text("HEAD / HTTP/1.1\r\n\r\n"), None);
    assert_eq!(route_text("get / HTTP/1.1\r\n\r\n"), None);
    assert_eq!(route_text("GETX / HTTP/1.1\r\n\r\n"), None);
}

#[test]
fn route_text_ignores_short_lines() {
    assert_eq!(route_text(""), None);
    assert_eq!(route_text("\r\n"), None);
    assert_eq!(route_text("GET\r\n/ HTTP/1.1\r\n"), None);
    assert_eq!(route_text("GET \r\n"), None);
}

#[test]
fn route_reads_a_plain_request() {
    assert_eq!(route(b"GET /a/b.html HTTP/1.1\r\nHost: localhost\r\n\r\n"), Some("public/a/b.html".to_string()));
}

#[test]
fn route_reads_a_zero_padded_buffer() {
    let buffer = padded(b"GET /index.html HTTP/1.1\r\nHost: localhost\r\n\r\n");
    assert_eq!(buffer.len(), 1024);
    assert_eq!(route(&buffer), Some("public/index.html".to_string()));
}

#[test]
fn route_of_an_empty_read_is_none() {
    assert_eq!(route(&padded(b"")), None);
    assert_eq!(route(b""), None);
}

#[test]
fn route_keeps_padding_that_touches_the_path() {
    let buffer = padded(b"GET /a");
    let mut expected = "public/a".to_string();
    for _ in 0..(1024 - 6) {
        expected.push('\0');
    }
    assert_eq!(route(&buffer), Some(expected));
}

#[test]
fn route_replaces_malformed_bytes() {
    assert_eq!(route(b"GET /\xff\xfe HTTP/1.1\r\n"), Some("public/\u{fffd}\u{fffd}".to_string()));
    assert_eq!(route(b"GET /a\xc3 HTTP/1.1\r\n"), Some("public/a\u{fffd}".to_string()));
    assert_eq!(route(b"\xffGET / HTTP/1.1\r\n"), None);
}

#[test]
fn route_decodes_well_formed_utf8() {
    assert_eq!(route("GET /caf\u{e9} HTTP/1.1\r\n".as_bytes()), Some("public/caf\u{e9}".to_string()));
    assert_eq!(route("GET\u{3000}/x\u{a0}HTTP/1.1".as_bytes()), Some("public/x".to_string()));
}

#[test]
fn route_agrees_with_route_text_on_text() {
    for text in ["GET / HTTP/1.1\r\n", "POST / HTTP/1.1\r\n", "", "GET", "GET //a/../b x\nGET /c"] {
        assert_eq!(route(text.as_bytes()), route_text(text));
    }
}

#[test]
fn serve_file_of_a_failed_read_is_not_found() {
    assert_eq!(serve_file("public/missing.html", None), Response::NotFound);
    assert_eq!(serve_file("public/", None), Response::NotFound);
}

#[test]
fn serve_file_guesses_css() {
    let r = serve_file("public/style.css", Some(b"body{}".to_vec()));
    assert_eq!(r, Response::Found { content_type: "text/css".to_string(), body: b"body{}".to_vec() });
}

#[test]
fn serve_file_guesses_html_and_png() {
    assert_eq!(serve_file("public/index.html", Some(Vec::new())).content_type(), Some("text/html"));
    assert_eq!(serve_file("public/img/logo.png", Some(Vec::new())).content_type(), Some("image/png"));
}

#[test]
fn serve_file_guesses_without_regard_to_case() {
    assert_eq!(serve_file("public/STYLE.CSS", Some(Vec::new())).content_type(), Some("text/css"));
}

#[test]
fn serve_file_falls_back_to_text_plain() {
    assert_eq!(serve_file("public/README", Some(Vec::new())).content_type(), Some("text/plain"));
    assert_eq!(serve_file("public/a.no-such-extension", Some(Vec::new())).content_type(), Some("text/plain"));
    assert_eq!(serve_file("public/.css", Some(Vec::new())).content_type(), Some("text/plain"));
    assert_eq!(serve_file("public/", Some(Vec::new())).content_type(), Some("text/plain"));
}

#[test]
fn serve_file_looks_at_the_last_extension_of_the_file_name() {
    assert_eq!(serve_file("public/a.css/b.html", Some(Vec::new())).content_type(), Some("text/html"));
    assert_eq!(serve_file("public/a.tar.gz", Some(Vec::new())).content_type(), Some("application/gzip"));
}

#[test]
fn serve_file_prints_the_media_type_in_lower_case() {
    assert_eq!(
        serve_file("public/a.docm", Some(Vec::new())).content_type(),
        Some("application/vnd.ms-word.document.macroenabled.12")
    );
}

#[test]
fn serve_file_keeps_the_content() {
    let content: Vec<u8> = (0..=255u8).collect();
    let r = serve_file("public/blob.bin", Some(content.clone()));
    assert_eq!(r.status_code(), 200);
    assert_eq!(r.content_length(), Some(256));
    assert_eq!(r.body(), &content[..]);
}
