//! SIP responses: building them from a request and writing them out.

use vstd::prelude::*;
use vstd::utf8::encode_utf8;
use crate::connection::{via_response, via_well_formed};
use crate::error::{SipError, SipErrorView};
use crate::header::{Header, generated_value, is_integer_header, is_rfc2822_utc};
use crate::header_map::{HeaderMap, headers_text};
use crate::number::{decimal, decimal_string, lemma_decimal_reads_back, parse_i32_spec, parse_usize_spec};
use crate::request::{Request, RequestView};
use crate::status::{Status, status_text};

verus! {

/// A response to a request.
pub struct Response {
    pub status: Status,
    pub headers: HeaderMap,
    pub body: Option<String>,
}

/// The content of a [`Response`].
pub struct ResponseView {
    pub status: Status,
    pub headers: Map<Header, Seq<char>>,
    pub body: Option<Seq<char>>,
}

impl View for Response {
    type V = ResponseView;

    open spec fn view(&self) -> ResponseView {
        ResponseView { status: self.status, headers: self.headers@, body: self.body.deep_view() }
    }
}

/// The number of bytes of the UTF-8 encoding of `s`.
pub open spec fn utf8_len(s: Seq<char>) -> nat {
    encode_utf8(s).len()
}

/// Whether `value` is accepted for header `h`.
pub open spec fn value_accepted(h: Header, value: Seq<char>) -> bool {
    !is_integer_header(h) || parse_i32_spec(value) is Some
}

/// `m` with the value of `h` in `from` copied over, when `from` has one.
pub open spec fn copy_from(m: Map<Header, Seq<char>>, from: Map<Header, Seq<char>>, h: Header) -> Map<
    Header,
    Seq<char>,
> {
    if from.contains_key(h) {
        m.insert(h, from[h])
    } else {
        m
    }
}

/// Whether a response can be built for `request` with `body`: the request's
/// `Via` value, if any, is well formed, and the body's length in bytes reads
/// as an `i32`.
pub open spec fn response_possible(request: RequestView, body: Option<Seq<char>>) -> bool {
    &&& request.headers.contains_key(Header::Via) ==> via_well_formed(request.headers[Header::Via])
    &&& body matches Some(b) ==> utf8_len(b) <= i32::MAX
}

/// The error with which building a response fails.
pub open spec fn response_error(request: RequestView, body: Option<Seq<char>>) -> SipErrorView {
    if request.headers.contains_key(Header::Via) && !via_well_formed(request.headers[Header::Via]) {
        SipErrorView::BadViaHeader
    } else {
        SipErrorView::NotAnInteger(decimal(utf8_len(body.unwrap())))
    }
}

/// The headers of a new response to `request` with `body`: `CSeq`, `From`,
/// `To` and `Call-ID` copied from the request where it has them; `Via`
/// rewritten for the connection; `Date` (`date`), `Server` and `Allow` as
/// generated; `Content-Length` the body's length in bytes, `0` without body.
/// [`Response::new`] states that `date` has the form of [`is_rfc2822_utc`].
pub open spec fn response_headers(
    request: RequestView,
    body: Option<Seq<char>>,
    date: Seq<char>,
) -> Map<Header, Seq<char>> {
    let q = request.headers;
    let copied = copy_from(
        copy_from(copy_from(copy_from(Map::empty(), q, Header::CSeq), q, Header::From), q, Header::To),
        q,
        Header::CallID,
    );
    let with_via = if q.contains_key(Header::Via) {
        copied.insert(
            Header::Via,
            via_response(q[Header::Via], request.connection.local_ip, request.connection.remote_port),
        )
    } else {
        copied
    };
    let generated = with_via.insert(Header::Date, date).insert(
        Header::Server,
        generated_value(Header::Server),
    ).insert(Header::Allow, generated_value(Header::Allow));
    match body {
        Some(b) => generated.insert(Header::ContentLength, decimal(utf8_len(b))),
        None => generated.insert(Header::ContentLength, "0"@),
    }
}

/// A response as text: the status line, the header lines, the body framed
/// by CRLF when there is one, and an empty line.
pub open spec fn response_text(r: ResponseView) -> Seq<char> {
    "SIP/2.0 "@ + status_text(r.status) + "\r\n"@ + headers_text(r.headers) + match r.body {
        Some(b) => "\r\n"@ + b + "\r\n"@,
        None => Seq::empty(),
    } + "\r\n"@
}

impl Response {
    /// A response to `request` with `status` and `body`, carrying the
    /// headers of [`response_headers`]. It fails when the request's `Via`
    /// value is not well formed, or when the body is too long for its
    /// length to read as an `i32`.
    pub fn new(request: &Request, status: Status, body: Option<String>) -> (r: Result<
        Response,
        SipError,
    >)
        requires
            body matches Some(b) ==> utf8_len(b@) <= usize::MAX,
        ensures
            r is Ok <==> response_possible(request@, body.deep_view()),
            r matches Ok(resp) ==> {
                &&& resp@.status == status
                &&& resp@.body == body.deep_view()
                &&& resp@.headers == response_headers(
                    request@,
                    body.deep_view(),
                    resp@.headers[Header::Date],
                )
                &&& is_rfc2822_utc(resp@.headers[Header::Date])
            },
            r matches Err(e) ==> e@ == response_error(request@, body.deep_view()),
    {
        let mut response = Response { status, headers: HeaderMap::new(), body: None };
        let ghost q = request@.headers;
        let ghost m0 = response@.headers;
        let c1 = response.copy_header_from_request(Header::CSeq, request);
        assert(c1 is Ok);
        let c2 = response.copy_header_from_request(Header::From, request);
        assert(c2 is Ok);
        let c3 = response.copy_header_from_request(Header::To, request);
        assert(c3 is Ok);
        let c4 = response.copy_header_from_request(Header::CallID, request);
        assert(c4 is Ok);
        if request.headers.contains_key(Header::Via) {
            let via_in = request.headers.get(Header::Via).unwrap().clone();
            match request.connection.via_header_response(via_in) {
                Ok(via) => {
                    let s = response.set_header(Header::Via, via);
                    assert(s is Ok);
                },
                Err(e) => {
                    return Err(e);
                },
            }
        }
        let g1 = response.generate_header(Header::Date);
        assert(g1 is Ok);
        let ghost date = response@.headers[Header::Date];
        let g2 = response.generate_header(Header::Server);
        assert(g2 is Ok);
        let g3 = response.generate_header(Header::Allow);
        assert(g3 is Ok);
        match body {
            Some(b) => {
                match response.set_body(b) {
                    Ok(_) => {},
                    Err(e) => {
                        return Err(e);
                    },
                }
            },
            None => {
                let s = response.set_header(Header::ContentLength, "0".to_owned());
                proof {
                    reveal_strlit("0");
                    lemma_decimal_reads_back(0);
                    assert("0"@ =~= decimal(0));
                }
                assert(s is Ok);
            },
        }
        assert(response@.headers =~= response_headers(request@, body.deep_view(), date));
        Ok(response)
    }

    /// Sets the value of a generated header (see [`Header::generate`]).
    /// The headers that need an integer refuse the empty value that they
    /// generate; every other header is set.
    pub fn generate_header(&mut self, header: Header) -> (r: Result<(), SipError>)
        ensures
            r is Ok <==> !is_integer_header(header),
            r is Ok ==> {
                &&& final(self)@.headers == old(self)@.headers.insert(
                    header,
                    final(self)@.headers[header],
                )
                &&& header != Header::Date ==> final(self)@.headers[header] == generated_value(
                    header,
                )
                &&& header == Header::Date ==> is_rfc2822_utc(final(self)@.headers[header])
            },
            r is Err ==> final(self)@.headers == old(self)@.headers,
            final(self)@.status == old(self)@.status,
            final(self)@.body == old(self)@.body,
    {
        let value = header.generate();
        proof {
            if is_integer_header(header) {
                assert(value@ =~= Seq::<char>::empty());
            }
        }
        self.set_header(header, value)
    }

    /// Sets `header` to `value` when the header accepts the value
    /// (see [`Header::validate`]); otherwise leaves the response as it is.
    pub fn set_header(&mut self, header: Header, value: String) -> (r: Result<(), SipError>)
        ensures
            r is Ok <==> value_accepted(header, value@),
            r is Ok ==> final(self)@.headers == old(self)@.headers.insert(header, value@),
            r is Err ==> final(self)@.headers == old(self)@.headers,
            r matches Err(e) ==> e@ == SipErrorView::NotAnInteger(value@),
            final(self)@.status == old(self)@.status,
            final(self)@.body == old(self)@.body,
    {
        match header.validate(&value) {
            Err(e) => Err(e),
            Ok(_) => {
                self.headers.insert(header, value);
                Ok(())
            },
        }
    }

    /// Sets the body, and `Content-Length` to its length in bytes; fails,
    /// leaving the response as it is, when that length does not read as an
    /// `i32`.
    pub fn set_body(&mut self, body: String) -> (r: Result<(), SipError>)
        requires
            utf8_len(body@) <= usize::MAX,
        ensures
            r is Ok <==> utf8_len(body@) <= i32::MAX,
            r is Ok ==> {
                &&& final(self)@.headers == old(self)@.headers.insert(
                    Header::ContentLength,
                    decimal(utf8_len(body@)),
                )
                &&& final(self)@.body == Some(body@)
                &&& parse_usize_spec(final(self)@.headers[Header::ContentLength]) == Some(
                    utf8_len(body@) as usize,
                )
            },
            r is Err ==> final(self)@ == old(self)@,
            r matches Err(e) ==> e@ == SipErrorView::NotAnInteger(decimal(utf8_len(body@))),
            final(self)@.status == old(self)@.status,
    {
        let s = body.as_str();
        let len = s.len();
        assert(s@ == body@);
        assert(len == utf8_len(body@));
        let text = decimal_string(len as u64);
        proof {
            lemma_decimal_reads_back(len as nat);
        }
        match self.set_header(Header::ContentLength, text) {
            Err(e) => Err(e),
            Ok(_) => {
                self.body = Some(body);
                Ok(())
            },
        }
    }

    /// Copies the value of `header` from `request`, when the request has
    /// one, as [`Response::set_header`] sets it.
    pub fn copy_header_from_request(&mut self, header: Header, request: &Request) -> (r: Result<
        (),
        SipError,
    >)
        ensures
            request@.headers.contains_key(header) ==> {
                &&& (r is Ok <==> value_accepted(header, request@.headers[header]))
                &&& r is Ok ==> final(self)@.headers == old(self)@.headers.insert(
                    header,
                    request@.headers[header],
                )
            },
            !request@.headers.contains_key(header) ==> r is Ok,
            r is Ok ==> final(self)@.headers == copy_from(
                old(self)@.headers,
                request@.headers,
                header,
            ),
            r is Err ==> final(self)@.headers == old(self)@.headers,
            r matches Err(e) ==> e@ == SipErrorView::NotAnInteger(request@.headers[header]),
            final(self)@.status == old(self)@.status,
            final(self)@.body == old(self)@.body,
    {
        if request.headers.contains_key(header) {
            let value = request.headers.get(header).unwrap().clone();
            self.set_header(header, value)
        } else {
            Ok(())
        }
    }

    /// This response as text: `SIP/2.0` and the status, one line per header,
    /// the body after an empty line when there is one, and an empty line.
    pub fn render(&self) -> (r: String)
        ensures
            r@ == response_text(self@),
    {
        let mut out = String::new();
        out.append("SIP/2.0 ");
        out.append(self.status.text());
        out.append("\r\n");
        self.headers.write_lines(&mut out);
        match &self.body {
            Some(b) => {
                out.append("\r\n");
                out.append(b.as_str());
                out.append("\r\n");
            },
            None => {},
        }
        out.append("\r\n");
        assert(out@ =~= response_text(self@));
        out
    }
}


/// The headers of a new response, one by one: `CSeq`, `From`, `To` and
/// `Call-ID` carry the request's values where the request has them and are
/// absent where it does not; `Via` is there exactly when the request has
/// one, rewritten for the connection; `Date` is the given date, `Server` is
/// `Telex PBX v0.1.0`, `Allow` is `REGISTER, INVITE, ACK, CANCEL, OPTIONS,
/// BYE`, and `Content-Length` is the body's length in bytes in decimal, `0`
/// without body; no other header is set.
pub proof fn lemma_response_header_values(
    q: RequestView,
    body: Option<Seq<char>>,
    date: Seq<char>,
    h: Header,
)
    ensures
        ({
            let m = response_headers(q, body, date);
            &&& (h == Header::CSeq || h == Header::From || h == Header::To || h == Header::CallID)
                ==> (m.contains_key(h) == q.headers.contains_key(h) && (q.headers.contains_key(h)
                ==> m[h] == q.headers[h]))
            &&& m.contains_key(Header::Via) == q.headers.contains_key(Header::Via)
            &&& q.headers.contains_key(Header::Via) ==> m[Header::Via] == via_response(
                q.headers[Header::Via],
                q.connection.local_ip,
                q.connection.remote_port,
            )
            &&& m.contains_key(Header::Date) && m[Header::Date] == date
            &&& m.contains_key(Header::Server) && m[Header::Server] == "Telex PBX v0.1.0"@
            &&& m.contains_key(Header::Allow) && m[Header::Allow]
                == "REGISTER, INVITE, ACK, CANCEL, OPTIONS, BYE"@
            &&& m.contains_key(Header::ContentLength)
            &&& body is None ==> m[Header::ContentLength] == "0"@
            &&& body matches Some(b) ==> parse_usize_spec(m[Header::ContentLength]) == Some(
                utf8_len(b) as usize,
            ) || utf8_len(b) > usize::MAX
            &&& !(h == Header::CSeq || h == Header::From || h == Header::To || h == Header::CallID
                || h == Header::Via || h == Header::Date || h == Header::Server || h
                == Header::Allow || h == Header::ContentLength) ==> !m.contains_key(h)
        }),
{
    match body {
        Some(b) => {
            if utf8_len(b) <= usize::MAX {
                lemma_decimal_reads_back(utf8_len(b));
            }
        },
        None => {},
    }
}

/// A response with a body is written as the same response without a body
/// (the status line, the header lines and an empty line) followed by the
/// body and two line ends.
pub proof fn lemma_response_body_after_empty_line(r: ResponseView, b: Seq<char>)
    requires
        r.body == Some(b),
    ensures
        response_text(r) == response_text(ResponseView { status: r.status, headers: r.headers, body: None })
            + b + "\r\n\r\n"@,
{
    reveal_strlit("\r\n\r\n");
    reveal_strlit("\r\n");
    let bare = ResponseView { status: r.status, headers: r.headers, body: None };
    assert(response_text(bare) =~= "SIP/2.0 "@ + status_text(r.status) + "\r\n"@ + headers_text(
        r.headers,
    ) + "\r\n"@);
    assert(response_text(r) =~= response_text(bare) + b + "\r\n\r\n"@);
}

/// A response is written starting with its status line
/// `SIP/2.0 <code> <reason>` and ending with an empty line.
pub proof fn lemma_response_status_line(r: ResponseView)
    ensures
        response_text(r).take(("SIP/2.0 "@ + status_text(r.status) + "\r\n"@).len() as int)
            == "SIP/2.0 "@ + status_text(r.status) + "\r\n"@,
        response_text(r).len() >= 2,
        response_text(r).skip(response_text(r).len() - 2) == "\r\n"@,
{
    reveal_strlit("\r\n");
    let line = "SIP/2.0 "@ + status_text(r.status) + "\r\n"@;
    assert(response_text(r).take(line.len() as int) =~= line);
    assert(response_text(r).skip(response_text(r).len() - 2) =~= "\r\n"@);
}

} // verus!
