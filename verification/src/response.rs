//! The answer to a request, as plain values: a status, header lines and a body.

use vstd::prelude::*;

verus! {

/// What a header line is, mathematically.
pub struct HeaderView {
    pub name: Seq<char>,
    pub value: Seq<char>,
}

/// One header line.
#[derive(Debug)]
pub struct Header {
    pub name: String,
    pub value: String,
}

impl View for Header {
    type V = HeaderView;

    open spec fn view(&self) -> HeaderView {
        HeaderView { name: self.name@, value: self.value@ }
    }
}

/// What a response is, mathematically.
pub struct ResponseView {
    pub status: nat,
    pub headers: Seq<HeaderView>,
    pub body: Seq<char>,
}

/// A response: the status code, the header lines in the order in which they are
/// sent, and the body.
#[derive(Debug)]
pub struct Response {
    pub status: u16,
    pub headers: Vec<Header>,
    pub body: String,
}

impl View for Response {
    type V = ResponseView;

    open spec fn view(&self) -> ResponseView {
        ResponseView {
            status: self.status as nat,
            headers: self.headers@.map_values(|header: Header| header@),
            body: self.body@,
        }
    }
}

/// The two header lines that go with every calendar document.
pub open spec fn calendar_headers() -> Seq<HeaderView> {
    seq![
        HeaderView { name: "Content-Type"@, value: "text/calendar; charset=utf-8"@ },
        HeaderView { name: "Content-Disposition"@, value: "inline; filename=calendar.ics"@ },
    ]
}

/// The response that hands out a calendar document.
pub open spec fn calendar_response(body: Seq<char>) -> ResponseView {
    ResponseView { status: 200, headers: calendar_headers(), body }
}

/// Wraps a calendar document into the response that hands it out: status 200 and
/// the two header lines that name its type and its file.
pub fn respond(body: String) -> (response: Response)
    ensures
        response@ == calendar_response(body@),
{
    let mut headers: Vec<Header> = Vec::new();
    headers.push(
        Header {
            name: String::from_str("Content-Type"),
            value: String::from_str("text/calendar; charset=utf-8"),
        },
    );
    headers.push(
        Header {
            name: String::from_str("Content-Disposition"),
            value: String::from_str("inline; filename=calendar.ics"),
        },
    );
    let response = Response { status: 200, headers, body };
    assert(response@.headers =~= calendar_headers());
    response
}

} // verus!
