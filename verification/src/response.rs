//! Responses and their form on the wire.

use vstd::prelude::*;
use vstd::string::*;
use vstd::utf8::encode_utf8;

verus! {

/// The status line of a response that carries a file.
pub const STATUS_OK: &'static str = "HTTP/1.1 200 OK\r\n";

/// The status line of a response that carries none.
pub const STATUS_NOT_FOUND: &'static str = "HTTP/1.1 404 NOT FOUND\r\n";

/// The body of a response that carries no file.
pub const NOT_FOUND_PAGE: &'static str = "<h1>404 - Not Found uwehehe</h1>";

/// A response: a file with its media type, or the word that there is none.
#[derive(Debug, Clone, PartialEq, Eq)]
pub enum Response {
    Found { content_type: String, body: Vec<u8> },
    NotFound,
}

/// A response as mathematical values.
pub enum ResponseView {
    Found { content_type: Seq<char>, body: Seq<u8> },
    NotFound,
}

impl View for Response {
    type V = ResponseView;

    open spec fn view(&self) -> ResponseView {
        match self {
            Response::Found { content_type, body } => ResponseView::Found {
                content_type: content_type@,
                body: body@,
            },
            Response::NotFound => ResponseView::NotFound,
        }
    }
}

impl DeepView for Response {
    type V = ResponseView;

    open spec fn deep_view(&self) -> ResponseView {
        self@
    }
}

/// The character that stands for a number below ten.
pub open spec fn digit(d: nat) -> char {
    if d == 0 {
        '0'
    } else if d == 1 {
        '1'
    } else if d == 2 {
        '2'
    } else if d == 3 {
        '3'
    } else if d == 4 {
        '4'
    } else if d == 5 {
        '5'
    } else if d == 6 {
        '6'
    } else if d == 7 {
        '7'
    } else if d == 8 {
        '8'
    } else {
        '9'
    }
}

/// `n` in decimal digits, the most significant first, with no leading zero
/// but for zero itself.
pub open spec fn decimal(n: nat) -> Seq<char>
    decreases n,
{
    if n < 10 {
        seq![digit(n)]
    } else {
        decimal(n / 10).push(digit(n % 10))
    }
}

/// The number that a digit stands for; zero for any other character.
pub open spec fn digit_value(c: char) -> nat {
    if '0' <= c <= '9' {
        (c as nat - '0' as nat) as nat
    } else {
        0
    }
}

/// The number that a sequence of decimal digits stands for.
pub open spec fn decimal_value(digits: Seq<char>) -> nat
    decreases digits.len(),
{
    if digits.len() == 0 {
        0
    } else {
        decimal_value(digits.drop_last()) * 10 + digit_value(digits.last())
    }
}

impl ResponseView {
    /// The status code: 200 with a file, 404 without.
    pub open spec fn status_code(self) -> nat {
        match self {
            ResponseView::Found { .. } => 200,
            ResponseView::NotFound => 404,
        }
    }

    /// The status line, with the line break that ends it.
    pub open spec fn status_line(self) -> Seq<char> {
        match self {
            ResponseView::Found { .. } => STATUS_OK@,
            ResponseView::NotFound => STATUS_NOT_FOUND@,
        }
    }

    /// The media type that the response announces, if it announces one.
    pub open spec fn content_type(self) -> Option<Seq<char>> {
        match self {
            ResponseView::Found { content_type, .. } => Some(content_type),
            ResponseView::NotFound => None,
        }
    }

    /// The length that the response announces, if it announces one: that of
    /// the file.
    pub open spec fn content_length(self) -> Option<nat> {
        match self {
            ResponseView::Found { body, .. } => Some(body.len()),
            ResponseView::NotFound => None,
        }
    }

    /// The body: the file, or the fixed page that says that there is none.
    pub open spec fn body(self) -> Seq<u8> {
        match self {
            ResponseView::Found { body, .. } => body,
            ResponseView::NotFound => encode_utf8(NOT_FOUND_PAGE@),
        }
    }

    /// The header lines: one for each of media type and length that the
    /// response announces, in this order.
    pub open spec fn header_lines(self) -> Seq<char> {
        let content_type = match self.content_type() {
            Some(media_type) => "Content-Type: "@ + media_type + "\r\n"@,
            None => Seq::empty(),
        };
        let content_length = match self.content_length() {
            Some(length) => "Content-Length: "@ + decimal(length) + "\r\n"@,
            None => Seq::empty(),
        };
        content_type + content_length
    }

    /// All that precedes the body: the status line, the header lines and an
    /// empty line.
    pub open spec fn head(self) -> Seq<char> {
        self.status_line() + self.header_lines() + "\r\n"@
    }

    /// The bytes that go over the wire: the head in UTF-8, then the body.
    pub open spec fn wire(self) -> Seq<u8> {
        encode_utf8(self.head()) + self.body()
    }
}

/// The decimal digits of a number denote that number.
pub proof fn lemma_decimal_value(n: nat)
    ensures
        decimal_value(decimal(n)) == n,
    decreases n,
{
    if n < 10 {
        assert(decimal(n).drop_last() =~= Seq::<char>::empty());
        assert(decimal_value(decimal(n).drop_last()) == 0);
    } else {
        lemma_decimal_value(n / 10);
        assert(decimal(n).drop_last() =~= decimal(n / 10));
    }
}

/// Two numbers with the same decimal digits are the same number.
pub proof fn lemma_decimal_injective(a: nat, b: nat)
    requires
        decimal(a) == decimal(b),
    ensures
        a == b,
{
    lemma_decimal_value(a);
    lemma_decimal_value(b);
}

fn digit_str(d: usize) -> (s: &'static str)
    requires
        d < 10,
    ensures
        s@ == seq![digit(d as nat)],
{
    proof {
        reveal_strlit("0");
        reveal_strlit("1");
        reveal_strlit("2");
        reveal_strlit("3");
        reveal_strlit("4");
        reveal_strlit("5");
        reveal_strlit("6");
        reveal_strlit("7");
        reveal_strlit("8");
        reveal_strlit("9");
    }
    let s = if d == 0 {
        "0"
    } else if d == 1 {
        "1"
    } else if d == 2 {
        "2"
    } else if d == 3 {
        "3"
    } else if d == 4 {
        "4"
    } else if d == 5 {
        "5"
    } else if d == 6 {
        "6"
    } else if d == 7 {
        "7"
    } else if d == 8 {
        "8"
    } else {
        "9"
    };
    assert(s@ =~= seq![digit(d as nat)]);
    s
}

/// Writes `n` in decimal digits.
pub fn decimal_string(n: usize) -> (digits: String)
    ensures
        digits@ == decimal(n as nat),
    decreases n,
{
    if n < 10 {
        String::from_str(digit_str(n))
    } else {
        let mut digits = decimal_string(n / 10);
        digits.append(digit_str(n % 10));
        digits
    }
}

impl Response {
    /// The status code.
    pub fn status_code(&self) -> (code: u16)
        ensures
            code == self@.status_code(),
    {
        match self {
            Response::Found { .. } => 200,
            Response::NotFound => 404,
        }
    }

    /// The media type that the response announces, if it announces one.
    pub fn content_type(&self) -> (media_type: Option<&str>)
        ensures
            media_type.deep_view() == self@.content_type(),
    {
        match self {
            Response::Found { content_type, .. } => Some(content_type.as_str()),
            Response::NotFound => None,
        }
    }

    /// The length that the response announces, if it announces one.
    pub fn content_length(&self) -> (length: Option<usize>)
        ensures
            match length {
                Some(n) => self@.content_length() == Some(n as nat),
                None => self@.content_length() is None,
            },
    {
        match self {
            Response::Found { body, .. } => Some(body.len()),
            Response::NotFound => None,
        }
    }

    /// The body.
    pub fn body(&self) -> (bytes: &[u8])
        ensures
            bytes@ == self@.body(),
    {
        match self {
            Response::Found { body, .. } => body.as_slice(),
            Response::NotFound => NOT_FOUND_PAGE.as_bytes(),
        }
    }

    /// All that precedes the body, as text.
    pub fn head(&self) -> (head: String)
        ensures
            head@ == self@.head(),
    {
        match self {
            Response::Found { content_type, body } => {
                let mut head = String::from_str(STATUS_OK);
                head.append("Content-Type: ");
                head.append(content_type.as_str());
                head.append("\r\n");
                head.append("Content-Length: ");
                head.append(decimal_string(body.len()).as_str());
                head.append("\r\n");
                head.append("\r\n");
                assert(head@ =~= self@.head());
                head
            },
            Response::NotFound => {
                let mut head = String::from_str(STATUS_NOT_FOUND);
                head.append("\r\n");
                assert(head@ =~= self@.head());
                head
            },
        }
    }

    /// The bytes that go over the wire.
    pub fn to_bytes(&self) -> (bytes: Vec<u8>)
        ensures
            bytes@ == self@.wire(),
    {
        let head = self.head();
        let mut bytes: Vec<u8> = Vec::new();
        bytes.extend_from_slice(head.as_str().as_bytes());
        bytes.extend_from_slice(self.body());
        bytes
    }
}

} // verus!
