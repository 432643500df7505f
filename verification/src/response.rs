//! The answers the resolver gives: a status, headers in order, a body.

use vstd::prelude::*;
use vstd::string::StrSliceExecFns;
use vstd::string::StringExecFns;
use crate::decimal::decimal;
use crate::decimal::decimal_text;

verus! {

/// One header line.
#[derive(Debug, PartialEq, Eq)]
pub struct Header {
    pub name: String,
    pub value: String,
}

impl View for Header {
    type V = (Seq<char>, Seq<char>);

    open spec fn view(&self) -> (Seq<char>, Seq<char>) {
        (self.name@, self.value@)
    }
}

/// A complete answer to one request.
#[derive(Debug, PartialEq, Eq)]
pub struct Response {
    pub status: u16,
    pub headers: Vec<Header>,
    pub body: Vec<u8>,
}

/// What a [`Response`] says, as plain mathematics.
pub struct ResponseView {
    pub status: int,
    pub headers: Seq<(Seq<char>, Seq<char>)>,
    pub body: Seq<u8>,
}

impl View for Response {
    type V = ResponseView;

    open spec fn view(&self) -> ResponseView {
        ResponseView {
            status: self.status as int,
            headers: Seq::new(self.headers@.len(), |i: int| self.headers@[i]@),
            body: self.body@,
        }
    }
}

/// The bytes of a text made of ASCII characters only, one byte each.
pub open spec fn ascii_bytes(text: Seq<char>) -> Seq<u8> {
    Seq::new(text.len(), |i: int| text[i] as u8)
}

/// The answer to a request whose key is refused.
pub open spec fn bad_request_view() -> ResponseView {
    ResponseView { status: 400, headers: seq![], body: ascii_bytes("Invalid path"@) }
}

/// The answer to a request for which nothing is packaged.
pub open spec fn not_found_view() -> ResponseView {
    ResponseView {
        status: 404,
        headers: seq![
            ("Content-Type"@, "text/plain"@),
            ("Access-Control-Allow-Origin"@, "*"@),
        ],
        body: ascii_bytes("404 Not Found"@),
    }
}

/// The answer the shell gives when it cannot hand a response on.
pub open spec fn internal_error_view() -> ResponseView {
    ResponseView { status: 500, headers: seq![], body: ascii_bytes("Internal Server Error"@) }
}

/// The answer that carries a packaged file.
pub open spec fn found_view(content_type: Seq<char>, body: Seq<u8>) -> ResponseView {
    ResponseView {
        status: 200,
        headers: seq![
            ("Content-Type"@, content_type),
            ("Access-Control-Allow-Origin"@, "*"@),
            ("Content-Length"@, decimal_text(body.len())),
        ],
        body,
    }
}

fn header(name: &str, value: String) -> (h: Header)
    ensures
        h@ == (name@, value@),
{
    Header { name: String::from_str(name), value }
}

impl Response {
    /// 400 with the body `Invalid path` and no header.
    pub fn bad_request() -> (r: Response)
        ensures
            r@ == bad_request_view(),
    {
        let text = "Invalid path";
        proof {
            reveal_strlit("Invalid path");
            vstd::utf8::is_ascii_chars_encode_utf8(text@);
        }
        let r = Response { status: 400, headers: Vec::new(), body: text.as_bytes_vec() };
        assert(r@.headers =~= bad_request_view().headers);
        assert(r@.body =~= bad_request_view().body);
        r
    }

    /// 404 with the body `404 Not Found`, typed as plain text and open to
    /// every origin.
    pub fn not_found() -> (r: Response)
        ensures
            r@ == not_found_view(),
    {
        let text = "404 Not Found";
        proof {
            reveal_strlit("404 Not Found");
            vstd::utf8::is_ascii_chars_encode_utf8(text@);
        }
        let mut headers: Vec<Header> = Vec::new();
        headers.push(header("Content-Type", String::from_str("text/plain")));
        headers.push(header("Access-Control-Allow-Origin", String::from_str("*")));
        let r = Response { status: 404, headers, body: text.as_bytes_vec() };
        assert(r@.headers =~= not_found_view().headers);
        assert(r@.body =~= not_found_view().body);
        r
    }

    /// 500 with the body `Internal Server Error` and no header.
    pub fn internal_error() -> (r: Response)
        ensures
            r@ == internal_error_view(),
    {
        let text = "Internal Server Error";
        proof {
            reveal_strlit("Internal Server Error");
            vstd::utf8::is_ascii_chars_encode_utf8(text@);
        }
        let r = Response { status: 500, headers: Vec::new(), body: text.as_bytes_vec() };
        assert(r@.headers =~= internal_error_view().headers);
        assert(r@.body =~= internal_error_view().body);
        r
    }

    /// 200 with `body` unchanged, its content type, its length in decimal,
    /// and open to every origin.
    pub fn found(content_type: String, body: Vec<u8>) -> (r: Response)
        ensures
            r@ == found_view(content_type@, body@),
    {
        let mut headers: Vec<Header> = Vec::new();
        headers.push(header("Content-Type", content_type));
        headers.push(header("Access-Control-Allow-Origin", String::from_str("*")));
        headers.push(header("Content-Length", decimal(body.len())));
        let r = Response { status: 200, headers, body };
        assert(r@.headers =~= found_view(content_type@, body@).headers);
        r
    }
}

} // verus!
