//! A SIP request as the library holds it once read.

use vstd::prelude::*;
use crate::connection::{ConnectionInfo, ConnectionView, no_line_feed};
use crate::header::Header;
use crate::header_map::{HeaderMap, headers_text};
use crate::grammar::{is_ascii_upper, lemma_request_line_reads_back, request_line_parts};
use crate::method::{Method, lemma_method_name_capitals, method_name};
use crate::text::{lemma_trim_end_crlf, lemma_trim_start_plain, trim_seq};

verus! {

/// A request read from a client, with the connection it came in on.
pub struct Request {
    pub method: Method,
    pub headers: HeaderMap,
    pub body: Option<String>,
    pub address: String,
    pub connection: ConnectionInfo,
}

/// The content of a [`Request`].
pub struct RequestView {
    pub method: Method,
    pub headers: Map<Header, Seq<char>>,
    pub body: Option<Seq<char>>,
    pub address: Seq<char>,
    pub connection: ConnectionView,
}

impl View for Request {
    type V = RequestView;

    open spec fn view(&self) -> RequestView {
        RequestView {
            method: self.method,
            headers: self.headers@,
            body: self.body.deep_view(),
            address: self.address@,
            connection: self.connection@,
        }
    }
}

/// A request as text: the request line, the header lines, and the body
/// framed by CRLF when there is one.
pub open spec fn request_text(q: RequestView) -> Seq<char> {
    method_name(q.method) + " "@ + q.address + " SIP/2.0\r\n"@ + headers_text(q.headers) + match q.body {
        Some(b) => "\r\n"@ + b + "\r\n"@,
        None => Seq::empty(),
    }
}

impl Request {
    /// This request as text: `METHOD address SIP/2.0`, one line per header,
    /// and the body after an empty line when there is one.
    pub fn render(&self) -> (r: String)
        ensures
            r@ == request_text(self@),
    {
        let mut out = String::new();
        out.append(self.method.name());
        out.append(" ");
        out.append(self.address.as_str());
        out.append(" SIP/2.0\r\n");
        self.headers.write_lines(&mut out);
        match &self.body {
            Some(b) => {
                out.append("\r\n");
                out.append(b.as_str());
                out.append("\r\n");
            },
            None => {},
        }
        assert(out@ =~= request_text(self@));
        out
    }
}

/// The first line of a rendered request reads back, once trimmed, as the
/// request's method name and address, when the address is non-empty and
/// holds no line feed.
pub proof fn lemma_rendered_request_line_reads_back(q: RequestView)
    requires
        q.address.len() >= 1,
        no_line_feed(q.address),
    ensures
        ({
            let line = method_name(q.method) + " "@ + q.address + " SIP/2.0\r\n"@;
            &&& request_text(q).take(line.len() as int) == line
            &&& request_line_parts(trim_seq(line)) == Some((method_name(q.method), q.address))
        }),
{
    reveal_strlit(" SIP/2.0\r\n");
    reveal_strlit(" SIP/2.0");
    reveal_strlit("\r\n");
    let m = method_name(q.method);
    lemma_method_name_capitals(q.method);
    let line = m + " "@ + q.address + " SIP/2.0\r\n"@;
    let x = m + " "@ + q.address + " SIP/2.0"@;
    assert(line =~= x + "\r\n"@);
    assert(x.last() == '0');
    lemma_trim_end_crlf(x);
    assert(x[0] == m[0]);
    lemma_trim_start_plain(x);
    assert forall|i: int| 0 <= i < m.len() implies is_ascii_upper(#[trigger] m[i]) by {}
    lemma_request_line_reads_back(m, q.address);
    assert(request_text(q).take(line.len() as int) =~= line);
}

/// A request with a body is written as the same request without a body,
/// then an empty line, the body, and a line end: the body never runs on
/// from the header lines.
pub proof fn lemma_body_after_empty_line(q: RequestView, b: Seq<char>)
    requires
        q.body == Some(b),
    ensures
        request_text(q) == request_text(
            RequestView {
                method: q.method,
                headers: q.headers,
                body: None,
                address: q.address,
                connection: q.connection,
            },
        ) + "\r\n"@ + b + "\r\n"@,
{
    let bare = RequestView {
        method: q.method,
        headers: q.headers,
        body: None,
        address: q.address,
        connection: q.connection,
    };
    assert(request_text(bare) =~= method_name(q.method) + " "@ + q.address + " SIP/2.0\r\n"@
        + headers_text(q.headers));
    assert(request_text(q) =~= request_text(bare) + "\r\n"@ + b + "\r\n"@);
}

} // verus!
