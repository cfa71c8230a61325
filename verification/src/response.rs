//! The reply a handler produces, and the envelope in which it goes on the wire.

use crate::text::{decimal, decimal_string, str_eq};
use vstd::prelude::*;
use vstd::utf8::encode_utf8;

verus! {

/// An HTTP status code: a number from 100 to 999.
#[derive(Clone, Copy, Debug, PartialEq, Eq, Structural)]
pub struct StatusCode {
    code: u16,
}

impl StatusCode {
    #[verifier::type_invariant]
    spec fn in_range(self) -> bool {
        100 <= self.code <= 999
    }

    /// The number this status code stands for.
    pub closed spec fn value(self) -> int {
        self.code as int
    }

    /// The status code for `code`, or `None` when `code` is not in 100..=999.
    pub fn from_u16(code: u16) -> (status: Option<StatusCode>)
        ensures
            status is Some <==> 100 <= code <= 999,
            status matches Some(s) ==> s.value() == code,
    {
        if 100 <= code && code <= 999 {
            Some(StatusCode { code })
        } else {
            None
        }
    }

    /// The number this status code stands for.
    pub fn as_u16(&self) -> (code: u16)
        ensures
            code == self.value(),
            100 <= code <= 999,
    {
        proof {
            use_type_invariant(self);
        }
        self.code
    }

    /// 200 OK.
    pub fn ok() -> (status: StatusCode)
        ensures
            status.value() == 200,
    {
        StatusCode { code: 200 }
    }

    /// 401 Unauthorized.
    pub fn unauthorized() -> (status: StatusCode)
        ensures
            status.value() == 401,
    {
        StatusCode { code: 401 }
    }

    /// 404 Not Found.
    pub fn not_found() -> (status: StatusCode)
        ensures
            status.value() == 404,
    {
        StatusCode { code: 404 }
    }
}

/// The protocol version a handler stamps on its reply.
#[derive(Clone, Copy, Debug, PartialEq, Eq, Structural)]
pub enum Version {
    Http10,
    Http11,
}

/// What a handler answers: status, protocol version, headers in the order
/// they were set, and the body.
pub struct Response {
    status: StatusCode,
    version: Version,
    headers: Vec<(String, String)>,
    body: String,
}

/// The mathematical content of a [`Response`].
pub struct ResponseView {
    pub status: int,
    pub version: Version,
    pub headers: Seq<(Seq<char>, Seq<char>)>,
    pub body: Seq<char>,
}

impl View for Response {
    type V = ResponseView;

    closed spec fn view(&self) -> ResponseView {
        ResponseView {
            status: self.status.value(),
            version: self.version,
            headers: self.headers.deep_view(),
            body: self.body@,
        }
    }
}

/// The value of the last header called `name`, if there is one.
pub open spec fn header_value(headers: Seq<(Seq<char>, Seq<char>)>, name: Seq<char>) -> Option<
    Seq<char>,
>
    decreases headers.len(),
{
    if headers.len() == 0 {
        None
    } else if headers.last().0 == name {
        Some(headers.last().1)
    } else {
        header_value(headers.drop_last(), name)
    }
}

impl Response {
    /// A reply made of the given parts.
    pub fn new(
        status: StatusCode,
        version: Version,
        headers: Vec<(String, String)>,
        body: String,
    ) -> (resp: Response)
        ensures
            resp@ == (ResponseView {
                status: status.value(),
                version,
                headers: headers.deep_view(),
                body: body@,
            }),
    {
        Response { status, version, headers, body }
    }

    pub fn status(&self) -> (status: StatusCode)
        ensures
            status.value() == self@.status,
    {
        self.status
    }

    pub fn version(&self) -> (version: Version)
        ensures
            version == self@.version,
    {
        self.version
    }

    pub fn body(&self) -> (body: &str)
        ensures
            body@ == self@.body,
    {
        self.body.as_str()
    }

    pub fn headers(&self) -> (headers: &Vec<(String, String)>)
        ensures
            headers.deep_view() == self@.headers,
    {
        &self.headers
    }

    /// The value of the last header called `name`, if the reply has one.
    pub fn header(&self, name: &str) -> (value: Option<&str>)
        ensures
            match value {
                Some(v) => header_value(self@.headers, name@) == Some(v@),
                None => header_value(self@.headers, name@) is None,
            },
    {
        let mut i: usize = self.headers.len();
        assert(self@.headers.take(i as int) =~= self@.headers);
        while i > 0
            invariant
                i <= self.headers.len(),
                header_value(self@.headers, name@) == header_value(
                    self@.headers.take(i as int),
                    name@,
                ),
            decreases i,
        {
            i = i - 1;
            let ghost prefix = self@.headers.take(i + 1);
            assert(prefix.last() == self.headers@[i as int].deep_view());
            assert(prefix.drop_last() =~= self@.headers.take(i as int));
            if str_eq(self.headers[i].0.as_str(), name) {
                return Some(self.headers[i].1.as_str());
            }
        }
        None
    }
}

/// The reason phrase that goes with a status code, where the `http` crate
/// knows one.
pub uninterp spec fn canonical_reason(code: u16) -> Option<Seq<char>>;

/// Looks the reason phrase of `code` up with `http::StatusCode::from_u16`
/// and `http::StatusCode::canonical_reason`. The phrase is a function of the
/// code alone; for the three codes this crate answers with, it is the phrase
/// the `http` crate lists for them.
#[verifier::external_body]
fn reason_phrase(code: u16) -> (reason: Option<String>)
    requires
        100 <= code <= 999,
    ensures
        reason.deep_view() == canonical_reason(code),
        code == 200 ==> reason.deep_view() == Some("OK"@),
        code == 401 ==> reason.deep_view() == Some("Unauthorized"@),
        code == 404 ==> reason.deep_view() == Some("Not Found"@),
{
    match warp::http::StatusCode::from_u16(code) {
        Ok(status) => status.canonical_reason().map(|phrase| phrase.to_string()),
        Err(_) => None,
    }
}

/// The phrase written after the number in a status line.
pub open spec fn reason_text(reason: Option<Seq<char>>) -> Seq<char> {
    match reason {
        Some(r) => r,
        None => "<unknown status code>"@,
    }
}

/// The status as it appears in the first line of a reply: the number, a
/// space, the reason phrase.
pub open spec fn status_text(code: int, reason: Option<Seq<char>>) -> Seq<char> {
    decimal(code as nat) + " "@ + reason_text(reason)
}

/// The complete reply as it is written to the socket. `Content-Length` counts
/// the bytes of the body's UTF-8 encoding.
pub open spec fn wire_text(code: int, reason: Option<Seq<char>>, body: Seq<char>) -> Seq<char> {
    "HTTP/1.0 "@ + status_text(code, reason) + "\r\nContent-Length: "@ + decimal(
        encode_utf8(body).len(),
    ) + "\r\nConnection: close\r\n\r\n"@ + body
}

/// Frames a status, its reason phrase and a body as the reply on the wire.
pub fn format_http_response(status: StatusCode, reason: Option<&str>, body: &str) -> (out: String)
    ensures
        out@ == wire_text(status.value(), reason.deep_view(), body@),
{
    let mut out: String = String::from_str("HTTP/1.0 ");
    let code: String = decimal_string(status.as_u16() as u64);
    out.append(code.as_str());
    out.append(" ");
    match reason {
        Some(r) => out.append(r),
        None => out.append("<unknown status code>"),
    }
    out.append("\r\nContent-Length: ");
    let length: String = decimal_string(body.as_bytes().len() as u64);
    out.append(length.as_str());
    out.append("\r\nConnection: close\r\n\r\n");
    out.append(body);
    assert(out@ =~= wire_text(status.value(), reason.deep_view(), body@));
    out
}

/// The reply as it is written to the socket: status line, `Content-Length`,
/// `Connection: close`, a blank line, the body.
pub fn http_response(resp: &Response) -> (out: String)
    ensures
        out@ == wire_text(resp@.status, canonical_reason(resp@.status as u16), resp@.body),
        resp@.status == 200 ==> out@ == wire_text(200, Some("OK"@), resp@.body),
        resp@.status == 401 ==> out@ == wire_text(401, Some("Unauthorized"@), resp@.body),
        resp@.status == 404 ==> out@ == wire_text(404, Some("Not Found"@), resp@.body),
{
    let status: StatusCode = resp.status();
    let reason: Option<String> = reason_phrase(status.as_u16());
    match &reason {
        Some(r) => format_http_response(status, Some(r.as_str()), resp.body()),
        None => format_http_response(status, None, resp.body()),
    }
}

} // verus!
