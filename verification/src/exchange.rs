//! One connection from end to end: what is written to it, as a function of
//! the bytes that were read from it and of the files that can be read.
//!
//! The functions of [`crate::handler`] and [`crate::response`] compute the
//! parts of this function; its caller reads the file in between.

use crate::handler::{response_for, target};
use crate::mime::mime_type_of;
use crate::request::{request_of_text, RequestView};
use crate::resolver::{document_path, slashes_end, trim_leading_slashes};
use crate::response::{decimal, ResponseView};
use crate::text::{first_line, lemma_encode_utf8_concat, lossy_utf8, words};
use vstd::prelude::*;
use vstd::utf8::encode_utf8;

verus! {

/// The outcome of reading `file`, where `files` holds the content of each
/// file that can be read.
pub open spec fn read(files: Map<Seq<char>, Seq<u8>>, file: Seq<char>) -> Option<Seq<u8>> {
    if files.dom().contains(file) {
        Some(files[file])
    } else {
        None
    }
}

/// The response to the text that a client sent, if it gets one.
pub open spec fn answer(text: Seq<char>, files: Map<Seq<char>, Seq<u8>>) -> Option<ResponseView> {
    match target(text) {
        Some(file) => Some(response_for(file, read(files, file))),
        None => None,
    }
}

/// The bytes that are written to a connection from which `buffer` was read:
/// the response as it goes over the wire, or nothing.
pub open spec fn written(buffer: Seq<u8>, files: Map<Seq<char>, Seq<u8>>) -> Seq<u8> {
    match answer(lossy_utf8(buffer), files) {
        Some(response) => response.wire(),
        None => Seq::empty(),
    }
}

/// A `GET` request for a file that can be read is answered with status 200,
/// with the exact length of the file as `Content-Length`, and with the
/// content of the file, byte for byte, as body.
pub proof fn law_readable_file_is_served(buffer: Seq<u8>, files: Map<Seq<char>, Seq<u8>>)
    requires
        target(lossy_utf8(buffer)) is Some,
        files.dom().contains(target(lossy_utf8(buffer)).unwrap()),
    ensures
        answer(lossy_utf8(buffer), files) is Some,
        ({
            let file = target(lossy_utf8(buffer)).unwrap();
            let response = answer(lossy_utf8(buffer), files).unwrap();
            &&& response.status_code() == 200
            &&& response.content_type() == Some(mime_type_of(file))
            &&& response.content_length() == Some(files[file].len())
            &&& response.body() == files[file]
            &&& written(buffer, files) == encode_utf8(
                "HTTP/1.1 200 OK\r\nContent-Type: "@ + mime_type_of(file) + "\r\nContent-Length: "@
                    + decimal(files[file].len()) + "\r\n\r\n"@,
            ) + files[file]
        }),
{
    let file = target(lossy_utf8(buffer)).unwrap();
    let response = answer(lossy_utf8(buffer), files).unwrap();
    reveal_strlit("HTTP/1.1 200 OK\r\n");
    reveal_strlit("Content-Type: ");
    reveal_strlit("Content-Length: ");
    reveal_strlit("\r\n");
    reveal_strlit("HTTP/1.1 200 OK\r\nContent-Type: ");
    reveal_strlit("\r\nContent-Length: ");
    reveal_strlit("\r\n\r\n");
    assert(response.head() =~= "HTTP/1.1 200 OK\r\nContent-Type: "@ + mime_type_of(file)
        + "\r\nContent-Length: "@ + decimal(files[file].len()) + "\r\n\r\n"@);
}

/// A `GET` request for `/` is answered as one for `/index.html` is, whatever
/// the files hold.
pub proof fn law_root_is_index(root: Seq<u8>, index: Seq<u8>, files: Map<Seq<char>, Seq<u8>>)
    requires
        request_of_text(lossy_utf8(root)) == Some(RequestView { method: "GET"@, path: "/"@ }),
        request_of_text(lossy_utf8(index)) == Some(
            RequestView { method: "GET"@, path: "/index.html"@ },
        ),
    ensures
        written(root, files) == written(index, files),
{
    reveal_strlit("/");
    reveal_strlit("/index.html");
    reveal_strlit("index.html");
    assert("/"@ =~= seq!['/']);
    assert(slashes_end("/index.html"@, 0) == 1) by {
        reveal_with_fuel(slashes_end, 3);
    }
    assert(trim_leading_slashes("/index.html"@) =~= "index.html"@);
    assert(document_path("/"@) == document_path("/index.html"@));
}

/// A `GET` request for a file that cannot be read is answered with status
/// 404, with the fixed page as body, and with neither `Content-Type` nor
/// `Content-Length`.
pub proof fn law_unreadable_file_is_not_found(buffer: Seq<u8>, files: Map<Seq<char>, Seq<u8>>)
    requires
        target(lossy_utf8(buffer)) is Some,
        !files.dom().contains(target(lossy_utf8(buffer)).unwrap()),
    ensures
        answer(lossy_utf8(buffer), files) == Some(ResponseView::NotFound),
        ResponseView::NotFound.status_code() == 404,
        ResponseView::NotFound.content_type() is None,
        ResponseView::NotFound.content_length() is None,
        ResponseView::NotFound.header_lines() == Seq::<char>::empty(),
        written(buffer, files) == encode_utf8(
            "HTTP/1.1 404 NOT FOUND\r\n\r\n<h1>404 - Not Found uwehehe</h1>"@,
        ),
{
    let response = ResponseView::NotFound;
    reveal_strlit("HTTP/1.1 404 NOT FOUND\r\n");
    reveal_strlit("\r\n");
    reveal_strlit("<h1>404 - Not Found uwehehe</h1>");
    reveal_strlit("HTTP/1.1 404 NOT FOUND\r\n\r\n<h1>404 - Not Found uwehehe</h1>");
    lemma_encode_utf8_concat(response.head(), "<h1>404 - Not Found uwehehe</h1>"@);
    assert(response.head() + "<h1>404 - Not Found uwehehe</h1>"@
        =~= "HTTP/1.1 404 NOT FOUND\r\n\r\n<h1>404 - Not Found uwehehe</h1>"@);
}

/// A request whose method is not `GET` gets no answer: nothing is written.
pub proof fn law_other_method_gets_no_answer(buffer: Seq<u8>, files: Map<Seq<char>, Seq<u8>>)
    requires
        words(first_line(lossy_utf8(buffer))).len() >= 2,
        words(first_line(lossy_utf8(buffer)))[0] != "GET"@,
    ensures
        answer(lossy_utf8(buffer), files) is None,
        written(buffer, files).len() == 0,
{
}

/// A first line of fewer than two words gets no answer: nothing is written.
pub proof fn law_short_line_gets_no_answer(buffer: Seq<u8>, files: Map<Seq<char>, Seq<u8>>)
    requires
        words(first_line(lossy_utf8(buffer))).len() < 2,
    ensures
        answer(lossy_utf8(buffer), files) is None,
        written(buffer, files).len() == 0,
{
}

} // verus!
