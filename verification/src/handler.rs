//! What to do with a connection: which file to read for what the client sent,
//! and what to answer once the read has been tried.

use crate::mime::{guess_mime_type, mime_type_of};
use crate::request::{parse_request, request_of_text};
use crate::resolver::{document_path, resolve};
use crate::response::{Response, ResponseView};
use crate::text::{decode_lossy, lossy_utf8};
use vstd::prelude::*;
use vstd::utf8::{decode_utf8, valid_utf8};

verus! {

/// The number of bytes that are read from a connection, in one read, before
/// the request is looked at.
pub const REQUEST_BUFFER_SIZE: usize = 1024;

/// The file to read for the text that a client sent: the one that answers the
/// path of the request, where the text holds a request and its method is
/// `GET`. For any other text there is none, and the client gets no answer.
pub open spec fn target(text: Seq<char>) -> Option<Seq<char>> {
    match request_of_text(text) {
        Some(request) => if request.is_get() {
            Some(document_path(request.path))
        } else {
            None
        },
        None => None,
    }
}

/// The response to a request for `file`, given the content of `file` where it
/// could be read.
pub open spec fn response_for(file: Seq<char>, content: Option<Seq<u8>>) -> ResponseView {
    match content {
        Some(body) => ResponseView::Found { content_type: mime_type_of(file), body },
        None => ResponseView::NotFound,
    }
}

/// Decides on the text that a client sent: the file to read, or `None` where
/// the connection is to be closed with nothing written.
pub fn route_text(text: &str) -> (file: Option<String>)
    ensures
        file.deep_view() == target(text@),
{
    match parse_request(text) {
        Some(request) => if request.is_get() {
            Some(resolve(request.path.as_str()))
        } else {
            None
        },
        None => None,
    }
}

/// Decides on the bytes that were read from a connection: the file to read,
/// or `None` where the connection is to be closed with nothing written.
///
/// The bytes are taken as UTF-8, and bytes that are none are tolerated.
pub fn route(buffer: &[u8]) -> (file: Option<String>)
    ensures
        file.deep_view() == target(lossy_utf8(buffer@)),
        valid_utf8(buffer@) ==> file.deep_view() == target(decode_utf8(buffer@)),
{
    let text = decode_lossy(buffer);
    route_text(text.as_str())
}

/// Builds the response to a request for `file` from the outcome of reading
/// it: `Some` with the content, or `None` where the read failed, whatever the
/// reason.
pub fn serve_file(file: &str, content: Option<Vec<u8>>) -> (response: Response)
    ensures
        response@ == response_for(
            file@,
            match content {
                Some(body) => Some(body@),
                None => None,
            },
        ),
{
    match content {
        Some(body) => Response::Found { content_type: guess_mime_type(file), body },
        None => Response::NotFound,
    }
}

} // verus!
