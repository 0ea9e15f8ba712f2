//! Reading a request step by step: the caller reads lines and body bytes
//! from its stream and hands them over; the parser says what to read next
//! and, at the end, gives the request or the reason it was refused.

use vstd::prelude::*;
use vstd::utf8::{decode_utf8, encode_scalar, encode_utf8, valid_utf8};
use crate::connection::{ConnectionInfo, ConnectionView, no_line_feed};
use crate::error::{SipError, SipErrorView};
use crate::grammar::{
    header_line_parts, lemma_rendered_header_line_reads_back, parse_header_line, parse_request_line,
    request_line_parts,
};
use crate::header::{
    HEADER_COUNT, Header, header_code, header_from_code, header_from_text, header_name,
    is_integer_header, lemma_header_code_roundtrip, lemma_header_name_from_text,
    lemma_header_name_letters,
};
use crate::header_map::{HeaderMap, header_line_text, header_lines};
use crate::method::{
    Method, lemma_method_name_capitals, lemma_method_name_from_text, method_from_text, method_name,
};
use crate::number::{
    decimal, is_ascii_digit, lemma_decimal_reads_back, lemma_decimal_value, parse_i32_spec,
    parse_usize, parse_usize_spec,
};
use crate::request::{Request, RequestView, lemma_rendered_request_line_reads_back, request_text};
use crate::text::{is_white_space, trim, trim_end, trim_end_seq, trim_seq};

verus! {

/// Where a [`RequestParser`] stands.
enum ParserStage {
    AwaitingRequestLine,
    ReadingHeaders {
        method: Method,
        address: String,
        headers: HeaderMap,
        content_length: usize,
    },
    ReadingBody {
        method: Method,
        address: String,
        headers: HeaderMap,
        received: Vec<u8>,
        remaining: usize,
    },
}

/// Reads one request. Made by [`RequestParser::new`]; every step consumes
/// the parser and gives back a [`ParseStep`].
pub struct RequestParser {
    connection: ConnectionInfo,
    stage: ParserStage,
}

/// The content of a parser's stage.
pub enum StageView {
    /// Blank lines are skipped until the request line comes.
    AwaitingRequestLine,
    /// The request line has been read; header lines follow until an empty one.
    ReadingHeaders {
        method: Method,
        address: Seq<char>,
        headers: Map<Header, Seq<char>>,
        content_length: usize,
    },
    /// The headers have been read; `remaining` bytes of body are still due.
    ReadingBody {
        method: Method,
        address: Seq<char>,
        headers: Map<Header, Seq<char>>,
        received: Seq<u8>,
        remaining: usize,
    },
}

/// The content of a [`RequestParser`].
pub struct ParserView {
    pub connection: ConnectionView,
    pub stage: StageView,
}

/// What a parsing step gives back.
pub enum ParseStep {
    /// Read the next line and hand it to [`RequestParser::feed_line`].
    NeedLine(RequestParser),
    /// Read up to the given number of body bytes into a buffer of that size
    /// and hand it to [`RequestParser::feed_body`].
    NeedBody(RequestParser, usize),
    /// The request is complete.
    Done(Request),
    /// The request is refused.
    Failed(SipError),
}

/// The content of a [`ParseStep`].
pub enum StepView {
    NeedLine(ParserView),
    NeedBody(ParserView, usize),
    Done(RequestView),
    Failed(SipErrorView),
}

impl View for RequestParser {
    type V = ParserView;

    closed spec fn view(&self) -> ParserView {
        ParserView {
            connection: self.connection@,
            stage: match &self.stage {
                ParserStage::AwaitingRequestLine => StageView::AwaitingRequestLine,
                ParserStage::ReadingHeaders { method, address, headers, content_length } =>
                    StageView::ReadingHeaders {
                    method: *method,
                    address: address@,
                    headers: headers@,
                    content_length: *content_length,
                },
                ParserStage::ReadingBody { method, address, headers, received, remaining } =>
                    StageView::ReadingBody {
                    method: *method,
                    address: address@,
                    headers: headers@,
                    received: received@,
                    remaining: *remaining,
                },
            },
        }
    }
}

impl View for ParseStep {
    type V = StepView;

    open spec fn view(&self) -> StepView {
        match self {
            ParseStep::NeedLine(p) => StepView::NeedLine(p@),
            ParseStep::NeedBody(p, n) => StepView::NeedBody(p@, *n),
            ParseStep::Done(q) => StepView::Done(q@),
            ParseStep::Failed(e) => StepView::Failed(e@),
        }
    }
}

/// The step after the line `line` while the request line is awaited: a
/// blank line is skipped; otherwise the trimmed line must be a request line
/// (`METHOD address SIP/2.0`) whose method, uppercased, is known.
pub open spec fn request_line_step(conn: ConnectionView, line: Seq<char>) -> StepView {
    let t = trim_seq(line);
    if t.len() == 0 {
        StepView::NeedLine(ParserView { connection: conn, stage: StageView::AwaitingRequestLine })
    } else {
        match request_line_parts(t) {
            None => StepView::Failed(SipErrorView::InvalidRequestLine(t)),
            Some((m, a)) => match method_from_text(m) {
                None => StepView::Failed(SipErrorView::UnknownMethod(m)),
                Some(method) => StepView::NeedLine(
                    ParserView {
                        connection: conn,
                        stage: StageView::ReadingHeaders {
                            method: method,
                            address: a,
                            headers: Map::empty(),
                            content_length: 0,
                        },
                    },
                ),
            },
        }
    }
}

/// The step after the line `line` while headers are read. An empty line
/// (after trailing white space is cut) ends the headers: the request is done,
/// or its body is due when a positive `Content-Length` was read. Any other
/// line must be `Name: value`; an unknown name is skipped; a value that its
/// header refuses ends the request; otherwise the value is kept, replacing
/// an earlier one, and a `Content-Length` value sets the body length (to 0
/// when it does not read as a `usize`).
pub open spec fn header_step(
    conn: ConnectionView,
    method: Method,
    address: Seq<char>,
    headers: Map<Header, Seq<char>>,
    content_length: usize,
    line: Seq<char>,
) -> StepView {
    let t = trim_end_seq(line);
    if t.len() == 0 {
        if content_length > 0 {
            StepView::NeedBody(
                ParserView {
                    connection: conn,
                    stage: StageView::ReadingBody {
                        method: method,
                        address: address,
                        headers: headers,
                        received: seq![0u8],
                        remaining: content_length,
                    },
                },
                content_length,
            )
        } else {
            StepView::Done(
                RequestView {
                    method: method,
                    headers: headers,
                    body: None,
                    address: address,
                    connection: conn,
                },
            )
        }
    } else {
        match header_line_parts(t) {
            None => StepView::Failed(SipErrorView::BadHeaderLine(t)),
            Some((name, value)) => match header_from_text(name) {
                None => StepView::NeedLine(
                    ParserView {
                        connection: conn,
                        stage: StageView::ReadingHeaders {
                            method: method,
                            address: address,
                            headers: headers,
                            content_length: content_length,
                        },
                    },
                ),
                Some(h) => if is_integer_header(h) && parse_i32_spec(value) is None {
                    StepView::Failed(SipErrorView::BadHeaderValue(value))
                } else {
                    StepView::NeedLine(
                        ParserView {
                            connection: conn,
                            stage: StageView::ReadingHeaders {
                                method: method,
                                address: address,
                                headers: headers.insert(h, value),
                                content_length: if h == Header::ContentLength {
                                    match parse_usize_spec(value) {
                                        Some(n) => n,
                                        None => 0,
                                    }
                                } else {
                                    content_length
                                },
                            },
                        },
                    )
                },
            },
        }
    }
}

/// The step after a line, for a parser that awaits lines.
pub open spec fn line_step(p: ParserView, line: Seq<char>) -> StepView {
    match p.stage {
        StageView::AwaitingRequestLine => request_line_step(p.connection, line),
        StageView::ReadingHeaders { method, address, headers, content_length } => header_step(
            p.connection,
            method,
            address,
            headers,
            content_length,
            line,
        ),
        StageView::ReadingBody { remaining, .. } => StepView::NeedBody(p, remaining),
    }
}

/// The end of a request whose body bytes are `bytes`: done when they are
/// UTF-8, refused otherwise.
pub open spec fn body_end(
    conn: ConnectionView,
    method: Method,
    address: Seq<char>,
    headers: Map<Header, Seq<char>>,
    bytes: Seq<u8>,
) -> StepView {
    if valid_utf8(bytes) {
        StepView::Done(
            RequestView {
                method: method,
                headers: headers,
                body: Some(decode_utf8(bytes)),
                address: address,
                connection: conn,
            },
        )
    } else {
        StepView::Failed(SipErrorView::UndecodableBody(bytes))
    }
}

/// The step after a read of the body: the whole buffer `chunk` is kept, and
/// `read` bytes are counted off what remains; once nothing remains, the body
/// ends.
pub open spec fn body_step(p: ParserView, chunk: Seq<u8>, read: usize) -> StepView {
    match p.stage {
        StageView::ReadingBody { method, address, headers, received, remaining } => {
            let bytes = received + chunk;
            let left = (remaining - read) as usize;
            if left == 0 {
                body_end(p.connection, method, address, headers, bytes)
            } else {
                StepView::NeedBody(
                    ParserView {
                        connection: p.connection,
                        stage: StageView::ReadingBody {
                            method: method,
                            address: address,
                            headers: headers,
                            received: bytes,
                            remaining: left,
                        },
                    },
                    left,
                )
            }
        },
        _ => StepView::NeedLine(p),
    }
}

/// The step after a failed read of the body: the body ends with the bytes
/// received so far.
pub open spec fn body_failure_step(p: ParserView) -> StepView {
    match p.stage {
        StageView::ReadingBody { method, address, headers, received, .. } => body_end(
            p.connection,
            method,
            address,
            headers,
            received,
        ),
        _ => StepView::NeedLine(p),
    }
}

/// Calls `String::from_utf8`: the bytes as a string when they are valid
/// UTF-8 (its documented condition), else nothing.
#[verifier::external_body]
fn string_from_utf8(bytes: Vec<u8>) -> (r: Option<String>)
    ensures
        r is Some <==> valid_utf8(bytes@),
        r matches Some(s) ==> s@ == decode_utf8(bytes@),
{
    String::from_utf8(bytes).ok()
}

/// The end of a request with body bytes `bytes`.
fn finish_body(
    connection: ConnectionInfo,
    method: Method,
    address: String,
    headers: HeaderMap,
    bytes: Vec<u8>,
) -> (r: ParseStep)
    ensures
        r@ == body_end(connection@, method, address@, headers@, bytes@),
{
    let copy = bytes.clone();
    match string_from_utf8(bytes) {
        Some(body) => ParseStep::Done(
            Request { method, headers, body: Some(body), address, connection },
        ),
        None => ParseStep::Failed(SipError::UndecodableBody(copy)),
    }
}

impl RequestParser {
    /// A parser for a request arriving on `connection`; it awaits the request
    /// line.
    pub fn new(connection: ConnectionInfo) -> (r: RequestParser)
        ensures
            r@ == (ParserView { connection: connection@, stage: StageView::AwaitingRequestLine }),
    {
        RequestParser { connection, stage: ParserStage::AwaitingRequestLine }
    }

    /// Whether this parser awaits body bytes rather than a line.
    pub fn wants_body(&self) -> (r: bool)
        ensures
            r == (self@.stage is ReadingBody),
    {
        match &self.stage {
            ParserStage::ReadingBody { .. } => true,
            _ => false,
        }
    }

    /// Takes the next line of the stream, as `read_line` gives it (with its
    /// line end, or empty at the end of the stream).
    pub fn feed_line(self, line: &str) -> (r: ParseStep)
        requires
            !(self@.stage is ReadingBody),
        ensures
            r@ == line_step(self@, line@),
    {
        let RequestParser { connection, stage } = self;
        match stage {
            ParserStage::AwaitingRequestLine => {
                let t = trim(line);
                if t.as_str().unicode_len() == 0 {
                    return ParseStep::NeedLine(
                        RequestParser { connection, stage: ParserStage::AwaitingRequestLine },
                    );
                }
                match parse_request_line(t.as_str()) {
                    None => ParseStep::Failed(SipError::InvalidRequestLine(t)),
                    Some((m, a)) => match Method::from_string(&m) {
                        Err(e) => ParseStep::Failed(e),
                        Ok(method) => ParseStep::NeedLine(
                            RequestParser {
                                connection,
                                stage: ParserStage::ReadingHeaders {
                                    method,
                                    address: a,
                                    headers: HeaderMap::new(),
                                    content_length: 0,
                                },
                            },
                        ),
                    },
                }
            },
            ParserStage::ReadingHeaders { method, address, mut headers, content_length } => {
                let t = trim_end(line);
                if t.as_str().unicode_len() == 0 {
                    if content_length > 0 {
                        let mut received: Vec<u8> = Vec::new();
                        received.push(0u8);
                        assert(received@ =~= seq![0u8]);
                        return ParseStep::NeedBody(
                            RequestParser {
                                connection,
                                stage: ParserStage::ReadingBody {
                                    method,
                                    address,
                                    headers,
                                    received,
                                    remaining: content_length,
                                },
                            },
                            content_length,
                        );
                    } else {
                        return ParseStep::Done(
                            Request { method, headers, body: None, address, connection },
                        );
                    }
                }
                match parse_header_line(t.as_str()) {
                    None => ParseStep::Failed(SipError::BadHeaderLine(t)),
                    Some((name, value)) => match Header::from_string(name.as_str()) {
                        Err(_) => ParseStep::NeedLine(
                            RequestParser {
                                connection,
                                stage: ParserStage::ReadingHeaders {
                                    method,
                                    address,
                                    headers,
                                    content_length,
                                },
                            },
                        ),
                        Ok(h) => match h.validate(&value) {
                            Err(_) => ParseStep::Failed(SipError::BadHeaderValue(value)),
                            Ok(_) => {
                                let mut length = content_length;
                                if h == Header::ContentLength {
                                    length = match parse_usize(value.as_str()) {
                                        Some(n) => n,
                                        None => 0,
                                    };
                                }
                                headers.insert(h, value);
                                ParseStep::NeedLine(
                                    RequestParser {
                                        connection,
                                        stage: ParserStage::ReadingHeaders {
                                            method,
                                            address,
                                            headers,
                                            content_length: length,
                                        },
                                    },
                                )
                            },
                        },
                    },
                }
            },
            ParserStage::ReadingBody { .. } => {
                proof {
                    assert(false);
                }
                ParseStep::NeedLine(RequestParser { connection, stage })
            },
        }
    }

    /// Takes a read of the body: `chunk` is the whole buffer that was read
    /// into (as many bytes as were asked for) and `read` the count of bytes
    /// that the read reported.
    pub fn feed_body(self, chunk: Vec<u8>, read: usize) -> (r: ParseStep)
        requires
            self@.stage is ReadingBody,
            read <= self@.stage->ReadingBody_remaining,
        ensures
            r@ == body_step(self@, chunk@, read),
    {
        let RequestParser { connection, stage } = self;
        match stage {
            ParserStage::ReadingBody { method, address, headers, mut received, remaining } => {
                let mut chunk = chunk;
                let ghost old_received = received@;
                let ghost old_chunk = chunk@;
                received.append(&mut chunk);
                assert(received@ =~= old_received + old_chunk);
                let left = remaining - read;
                if left == 0 {
                    finish_body(connection, method, address, headers, received)
                } else {
                    ParseStep::NeedBody(
                        RequestParser {
                            connection,
                            stage: ParserStage::ReadingBody {
                                method,
                                address,
                                headers,
                                received,
                                remaining: left,
                            },
                        },
                        left,
                    )
                }
            },
            _ => {
                proof {
                    assert(false);
                }
                ParseStep::NeedLine(RequestParser { connection, stage })
            },
        }
    }

    /// Takes a failed read of the body: the body ends with what was
    /// received.
    pub fn body_read_failed(self) -> (r: ParseStep)
        requires
            self@.stage is ReadingBody,
        ensures
            r@ == body_failure_step(self@),
    {
        let RequestParser { connection, stage } = self;
        match stage {
            ParserStage::ReadingBody { method, address, headers, received, .. } => {
                finish_body(connection, method, address, headers, received)
            },
            _ => {
                proof {
                    assert(false);
                }
                ParseStep::NeedLine(RequestParser { connection, stage })
            },
        }
    }
}

/// The step reached by handing `lines` one after the other to a parser that
/// asks for lines, starting from `step`.
pub open spec fn feed_lines(step: StepView, lines: Seq<Seq<char>>) -> StepView
    decreases lines.len(),
{
    if lines.len() == 0 {
        step
    } else {
        match step {
            StepView::NeedLine(p) => feed_lines(line_step(p, lines[0]), lines.drop_first()),
            _ => step,
        }
    }
}

/// The header lines that rendering writes for the codes from `n` on, one
/// line per header that `m` holds.
pub open spec fn header_line_seq(m: Map<Header, Seq<char>>, n: nat) -> Seq<Seq<char>>
    decreases HEADER_COUNT - n,
{
    if n >= HEADER_COUNT {
        Seq::empty()
    } else if header_line_text(m, n).len() > 0 {
        seq![header_line_text(m, n)] + header_line_seq(m, n + 1)
    } else {
        header_line_seq(m, n + 1)
    }
}

/// The lines in which a stream reader receives a rendered request without
/// body: the request line, one line per header, and the empty read at the
/// end of the stream.
pub open spec fn rendered_lines(q: RequestView) -> Seq<Seq<char>> {
    seq![method_name(q.method) + " "@ + q.address + " SIP/2.0\r\n"@] + header_line_seq(q.headers, 0)
        + seq![Seq::<char>::empty()]
}

/// Whether a header value comes back unchanged through rendering and
/// reading as the value of `h`: it is non-empty, starts and ends with other
/// than white space, holds no line feed, and its header accepts it.
pub open spec fn value_fits(h: Header, v: Seq<char>) -> bool {
    &&& v.len() >= 1
    &&& !is_white_space(v[0])
    &&& !is_white_space(v.last())
    &&& no_line_feed(v)
    &&& (is_integer_header(h) ==> parse_i32_spec(v) is Some)
}

/// Whether a header value comes back unchanged through rendering and
/// reading ([`value_fits`]) and, for `Content-Length`, does not announce a
/// body.
pub open spec fn value_reads_back(h: Header, v: Seq<char>) -> bool {
    &&& value_fits(h, v)
    &&& (h == Header::ContentLength ==> parse_usize_spec(v) is None || parse_usize_spec(v) == Some(
        0usize,
    ))
}

proof fn lemma_flatten_append(a: Seq<Seq<char>>, b: Seq<Seq<char>>)
    ensures
        (a + b).flatten() == a.flatten() + b.flatten(),
    decreases a.len(),
{
    if a.len() == 0 {
        assert(a + b =~= b);
    } else {
        assert((a + b).drop_first() =~= a.drop_first() + b);
        lemma_flatten_append(a.drop_first(), b);
    }
}

proof fn lemma_header_line_seq_text(m: Map<Header, Seq<char>>, n: nat)
    requires
        n <= HEADER_COUNT,
    ensures
        header_lines(m, n) + header_line_seq(m, n).flatten() == header_lines(m, HEADER_COUNT as nat),
    decreases HEADER_COUNT - n,
{
    if n < HEADER_COUNT {
        lemma_header_line_seq_text(m, n + 1);
        assert(header_lines(m, n + 1) == header_lines(m, n) + header_line_text(m, n));
        if header_line_text(m, n).len() > 0 {
            let one = seq![header_line_text(m, n)];
            lemma_flatten_append(one, header_line_seq(m, n + 1));
            one.lemma_flatten_one_element();
        } else {
            assert(header_line_text(m, n) =~= Seq::<char>::empty());
        }
    } else {
        assert(header_line_seq(m, n).flatten() =~= Seq::<char>::empty());
    }
}

/// The headers of `m` whose code is below `n`.
pub open spec fn headers_below(m: Map<Header, Seq<char>>, n: nat) -> Map<Header, Seq<char>> {
    Map::new(|h: Header| m.contains_key(h) && header_code(h) < n, |h: Header| m[h])
}

/// The body length that the headers of `m` below code `n` announce: the
/// value of `Content-Length` read as a `usize` (0 when it does not read as
/// one), or 0 when there is none.
pub open spec fn announced_length(m: Map<Header, Seq<char>>, n: nat) -> usize {
    if m.contains_key(Header::ContentLength) && header_code(Header::ContentLength) < n {
        match parse_usize_spec(m[Header::ContentLength]) {
            Some(k) => k,
            None => 0,
        }
    } else {
        0
    }
}

/// The parser state while headers are read, holding the headers of `m`
/// below code `n`.
pub open spec fn headers_state(
    conn: ConnectionView,
    method: Method,
    address: Seq<char>,
    m: Map<Header, Seq<char>>,
    n: nat,
) -> ParserView {
    ParserView {
        connection: conn,
        stage: StageView::ReadingHeaders {
            method: method,
            address: address,
            headers: headers_below(m, n),
            content_length: announced_length(m, n),
        },
    }
}

/// The headers of `m` all come back through rendering and reading
/// ([`value_fits`]); none is `AuthenticationInfo`.
pub open spec fn headers_fit(m: Map<Header, Seq<char>>) -> bool {
    forall|h: Header| #[trigger] m.contains_key(h) ==> {
        &&& h != Header::AuthenticationInfo
        &&& value_fits(h, m[h])
    }
}

/// The headers of `m` all come back through rendering and reading.
pub open spec fn headers_read_back(m: Map<Header, Seq<char>>) -> bool {
    forall|h: Header| #[trigger] m.contains_key(h) ==> {
        &&& h != Header::AuthenticationInfo
        &&& value_reads_back(h, m[h])
    }
}

proof fn lemma_below_step(m: Map<Header, Seq<char>>, n: nat)
    requires
        n < HEADER_COUNT,
    ensures
        header_from_code(n as u8) matches Some(h) ==> (m.contains_key(h) ==> headers_below(m, n + 1)
            == headers_below(m, n).insert(h, m[h])),
        header_from_code(n as u8) is None || !m.contains_key(header_from_code(n as u8).unwrap())
            ==> headers_below(m, n + 1) == headers_below(m, n),
{
    let below = headers_below(m, n);
    let next = headers_below(m, n + 1);
    match header_from_code(n as u8) {
        Some(h) => {
            lemma_header_code_roundtrip(h);
            if m.contains_key(h) {
                assert forall|k: Header| #[trigger] next.contains_key(k) implies below.insert(
                    h,
                    m[h],
                ).contains_key(k) by {
                    lemma_header_code_roundtrip(k);
                }
                assert(next =~= below.insert(h, m[h]));
            } else {
                assert forall|k: Header| #[trigger] next.contains_key(k) implies below.contains_key(k) by {
                    lemma_header_code_roundtrip(k);
                }
                assert(next =~= below);
            }
        },
        None => {
            assert forall|k: Header| #[trigger] next.contains_key(k) implies below.contains_key(k) by {
                lemma_header_code_roundtrip(k);
            }
            assert(next =~= below);
        },
    }
}

proof fn lemma_header_line_step(
    conn: ConnectionView,
    method: Method,
    address: Seq<char>,
    m: Map<Header, Seq<char>>,
    n: nat,
    h: Header,
)
    requires
        n < HEADER_COUNT,
        header_from_code(n as u8) == Some(h),
        m.contains_key(h),
        headers_fit(m),
    ensures
        header_line_text(m, n).len() > 0,
        line_step(headers_state(conn, method, address, m, n), header_line_text(m, n))
            == StepView::NeedLine(headers_state(conn, method, address, m, n + 1)),
{
    let v = m[h];
    let line = header_name(h) + ": "@ + v + "\r\n"@;
    assert(header_line_text(m, n) == line);
    lemma_rendered_header_line_reads_back(h, v);
    let t = trim_end_seq(line);
    assert(header_line_parts(t) is Some);
    lemma_header_name_from_text(h);
    lemma_below_step(m, n);
}

/// The step that ends the headers of `m` read on `conn`: the request
/// without body when no body is announced, else the request for the body.
pub open spec fn headers_end(
    conn: ConnectionView,
    method: Method,
    address: Seq<char>,
    m: Map<Header, Seq<char>>,
) -> StepView {
    let k = announced_length(m, HEADER_COUNT as nat);
    if k == 0 {
        StepView::Done(
            RequestView { method: method, headers: m, body: None, address: address, connection: conn },
        )
    } else {
        StepView::NeedBody(
            ParserView {
                connection: conn,
                stage: StageView::ReadingBody {
                    method: method,
                    address: address,
                    headers: m,
                    received: seq![0u8],
                    remaining: k,
                },
            },
            k,
        )
    }
}

proof fn lemma_headers_fed(
    conn: ConnectionView,
    method: Method,
    address: Seq<char>,
    m: Map<Header, Seq<char>>,
    n: nat,
    last: Seq<char>,
)
    requires
        n <= HEADER_COUNT,
        headers_fit(m),
        trim_end_seq(last).len() == 0,
    ensures
        feed_lines(
            StepView::NeedLine(headers_state(conn, method, address, m, n)),
            header_line_seq(m, n) + seq![last],
        ) == headers_end(conn, method, address, m),
    decreases HEADER_COUNT - n,
{
    let here = StepView::NeedLine(headers_state(conn, method, address, m, n));
    let lines = header_line_seq(m, n) + seq![last];
    if n >= HEADER_COUNT {
        assert forall|h: Header| m.contains_key(h) implies header_code(h) < n by {
            lemma_header_code_roundtrip(h);
        }
        assert(headers_below(m, n) =~= m);
        assert(lines =~= seq![last]);
        assert(lines.drop_first() =~= Seq::<Seq<char>>::empty());
        let end = headers_end(conn, method, address, m);
        assert(line_step(headers_state(conn, method, address, m, n), lines[0]) == end);
        assert(feed_lines(end, lines.drop_first()) == end);
        assert(feed_lines(here, lines) == feed_lines(end, lines.drop_first()));
    } else {
        lemma_headers_fed(conn, method, address, m, n + 1, last);
        let rest = header_line_seq(m, n + 1) + seq![last];
        let next = StepView::NeedLine(headers_state(conn, method, address, m, n + 1));
        lemma_below_step(m, n);
        lemma_header_code_roundtrip(Header::ContentLength);
        if header_line_text(m, n).len() > 0 {
            let h = header_from_code(n as u8).unwrap();
            lemma_header_line_step(conn, method, address, m, n, h);
            assert(lines =~= seq![header_line_text(m, n)] + rest);
            assert(lines.drop_first() =~= rest);
            assert(lines[0] == header_line_text(m, n));
            assert(feed_lines(here, lines) == feed_lines(next, rest));
        } else {
            assert(lines =~= rest);
            assert(headers_state(conn, method, address, m, n) == headers_state(
                conn,
                method,
                address,
                m,
                n + 1,
            ));
        }
    }
}

/// A line as a stream reader's `read_line` gives it before the end of the
/// stream: it ends in a line feed and holds no other.
pub open spec fn is_whole_line(l: Seq<char>) -> bool {
    l.len() > 0 && l.last() == '\n' && no_line_feed(l.drop_last())
}

proof fn lemma_header_lines_whole(m: Map<Header, Seq<char>>, n: nat)
    requires
        n <= HEADER_COUNT,
        headers_fit(m),
    ensures
        forall|i: int| 0 <= i < header_line_seq(m, n).len() ==> is_whole_line(
            #[trigger] header_line_seq(m, n)[i],
        ),
    decreases HEADER_COUNT - n,
{
    if n < HEADER_COUNT {
        lemma_header_lines_whole(m, n + 1);
        if header_line_text(m, n).len() > 0 {
            let h = header_from_code(n as u8).unwrap();
            let v = m[h];
            let line = header_name(h) + ": "@ + v + "\r\n"@;
            assert(header_line_text(m, n) == line);
            reveal_strlit(": ");
            reveal_strlit("\r\n");
            lemma_header_name_letters(h);
            let k = header_name(h);
            assert(line.drop_last() =~= k + ": "@ + v + seq!['\r']);
            assert forall|j: int| 0 <= j < line.drop_last().len() implies #[trigger] line.drop_last()[j]
                != '\n' by {
                if j < k.len() {
                    assert(line.drop_last()[j] == k[j]);
                } else if j >= k.len() + 2 && j < k.len() + 2 + v.len() {
                    assert(line.drop_last()[j] == v[j - k.len() - 2]);
                }
            }
            let seqs = seq![line] + header_line_seq(m, n + 1);
            assert forall|i: int| 0 <= i < seqs.len() implies is_whole_line(#[trigger] seqs[i]) by {
                if i > 0 {
                    assert(seqs[i] == header_line_seq(m, n + 1)[i - 1]);
                }
            }
        }
    }
}

/// A request without body, once rendered, reads back as the same request
/// when a stream reader hands its lines to the parser: the rendered text is
/// exactly those lines, and every header value comes back unchanged. This
/// holds when the address is non-empty without line feed, every header
/// value reads back cleanly ([`value_reads_back`]), no header is
/// `AuthenticationInfo` (whose written name differs from the name it is read
/// by).
pub proof fn lemma_rendered_request_reads_back(q: RequestView)
    requires
        q.body is None,
        q.address.len() >= 1,
        no_line_feed(q.address),
        headers_read_back(q.headers),
    ensures
        rendered_lines(q).flatten() == request_text(q),
        forall|i: int| 0 <= i < rendered_lines(q).len() - 1 ==> is_whole_line(
            #[trigger] rendered_lines(q)[i],
        ),
        rendered_lines(q).last() == Seq::<char>::empty(),
        feed_lines(
            StepView::NeedLine(
                ParserView { connection: q.connection, stage: StageView::AwaitingRequestLine },
            ),
            rendered_lines(q),
        ) == StepView::Done(q),
{
    let line0 = method_name(q.method) + " "@ + q.address + " SIP/2.0\r\n"@;
    let hs = header_line_seq(q.headers, 0);
    let lines = rendered_lines(q);
    lemma_rendered_request_line_reads_back(q);
    lemma_method_name_from_text(q.method);
    let t = trim_seq(line0);
    assert(t.len() > 0) by {
        assert(request_line_parts(t) is Some);
    }
    let start = ParserView { connection: q.connection, stage: StageView::AwaitingRequestLine };
    let after = StepView::NeedLine(
        ParserView {
            connection: q.connection,
            stage: StageView::ReadingHeaders {
                method: q.method,
                address: q.address,
                headers: Map::empty(),
                content_length: 0,
            },
        },
    );
    assert(line_step(start, line0) == after);
    assert(headers_below(q.headers, 0) =~= Map::<Header, Seq<char>>::empty());
    assert(after == StepView::NeedLine(
        headers_state(q.connection, q.method, q.address, q.headers, 0),
    ));
    assert(announced_length(q.headers, 0) == 0);
    lemma_headers_fed(q.connection, q.method, q.address, q.headers, 0, Seq::<char>::empty());
    assert(trim_end_seq(Seq::<char>::empty()) =~= Seq::<char>::empty());
    assert(lines.drop_first() =~= hs + seq![Seq::<char>::empty()]);
    assert(lines[0] == line0);
    // The text of the lines.
    lemma_flatten_append(seq![line0] + hs, seq![Seq::<char>::empty()]);
    lemma_flatten_append(seq![line0], hs);
    seq![line0].lemma_flatten_one_element();
    let e = seq![Seq::<char>::empty()];
    e.lemma_flatten_one_element();
    lemma_header_line_seq_text(q.headers, 0);
    assert(header_lines(q.headers, 0) =~= Seq::<char>::empty());
    assert(lines.flatten() =~= request_text(q));
    // Each line but the last is whole.
    lemma_header_lines_whole(q.headers, 0);
    lemma_method_name_capitals(q.method);
    reveal_strlit(" SIP/2.0\r\n");
    let mn = method_name(q.method);
    assert(line0.drop_last() =~= mn + " "@ + q.address + " SIP/2.0\r"@) by {
        reveal_strlit(" SIP/2.0\r");
    }
    reveal_strlit(" ");
    reveal_strlit(" SIP/2.0\r");
    assert forall|j: int| 0 <= j < line0.drop_last().len() implies #[trigger] line0.drop_last()[j]
        != '\n' by {
        if j < mn.len() {
            assert(line0.drop_last()[j] == mn[j]);
        } else if j > mn.len() && j < mn.len() + 1 + q.address.len() {
            assert(line0.drop_last()[j] == q.address[j - mn.len() - 1]);
        }
    }
    assert forall|i: int| 0 <= i < lines.len() - 1 implies is_whole_line(#[trigger] lines[i]) by {
        if i > 0 {
            assert(lines[i] == hs[i - 1]);
        }
    }
}

/// Whether `line` is a header line for a header other than `Content-Length`:
/// its name is unknown, or its header accepts its value.
pub open spec fn other_header_line(line: Seq<char>) -> bool {
    match header_line_parts(trim_end_seq(line)) {
        Some((name, value)) => match header_from_text(name) {
            Some(h) => h != Header::ContentLength && (is_integer_header(h) ==> parse_i32_spec(value) is Some),
            None => true,
        },
        None => false,
    }
}

/// Whether `line` is a `Content-Length` header line whose value reads as
/// the byte count `n`.
pub open spec fn content_length_line(line: Seq<char>, n: usize) -> bool {
    match header_line_parts(trim_end_seq(line)) {
        Some((name, value)) => {
            &&& header_from_text(name) == Some(Header::ContentLength)
            &&& parse_i32_spec(value) is Some
            &&& parse_usize_spec(value) == Some(n)
        },
        None => false,
    }
}

/// While headers are read, a line for a header other than `Content-Length`
/// asks for the next line and keeps the announced body length, the method,
/// the address and the connection.
pub proof fn lemma_other_header_keeps_length(p: ParserView, line: Seq<char>)
    requires
        p.stage is ReadingHeaders,
        other_header_line(line),
    ensures
        line_step(p, line) matches StepView::NeedLine(q) && {
            &&& q.connection == p.connection
            &&& q.stage is ReadingHeaders
            &&& q.stage->ReadingHeaders_method == p.stage->ReadingHeaders_method
            &&& q.stage->ReadingHeaders_address == p.stage->ReadingHeaders_address
            &&& q.stage->ReadingHeaders_content_length == p.stage->ReadingHeaders_content_length
        },
{
}

/// While headers are read, a `Content-Length` line whose value reads as `n`
/// sets the announced body length to `n`, keeping the method, the address
/// and the connection.
pub proof fn lemma_content_length_line_sets_length(p: ParserView, line: Seq<char>, n: usize)
    requires
        p.stage is ReadingHeaders,
        content_length_line(line, n),
    ensures
        line_step(p, line) matches StepView::NeedLine(q) && {
            &&& q.connection == p.connection
            &&& q.stage is ReadingHeaders
            &&& q.stage->ReadingHeaders_method == p.stage->ReadingHeaders_method
            &&& q.stage->ReadingHeaders_address == p.stage->ReadingHeaders_address
            &&& q.stage->ReadingHeaders_content_length == n
        },
{
}

/// While headers are read with a body of `n > 0` bytes announced, the empty
/// line asks for those `n` bytes; the body buffer starts with one zero byte.
pub proof fn lemma_empty_line_asks_for_body(p: ParserView, line: Seq<char>)
    requires
        p.stage is ReadingHeaders,
        p.stage->ReadingHeaders_content_length > 0,
        trim_end_seq(line).len() == 0,
    ensures
        line_step(p, line) matches StepView::NeedBody(q, k) && {
            &&& k == p.stage->ReadingHeaders_content_length
            &&& q.connection == p.connection
            &&& q.stage is ReadingBody
            &&& q.stage->ReadingBody_method == p.stage->ReadingHeaders_method
            &&& q.stage->ReadingBody_address == p.stage->ReadingHeaders_address
            &&& q.stage->ReadingBody_headers == p.stage->ReadingHeaders_headers
            &&& q.stage->ReadingBody_received == seq![0u8]
            &&& q.stage->ReadingBody_remaining == k
        },
{
}

proof fn lemma_other_lines_then_empty(p: ParserView, lines: Seq<Seq<char>>)
    requires
        p.stage is ReadingHeaders,
        p.stage->ReadingHeaders_content_length > 0,
        lines.len() >= 1,
        forall|i: int| 0 <= i < lines.len() - 1 ==> other_header_line(#[trigger] lines[i]),
        trim_end_seq(lines.last()).len() == 0,
    ensures
        feed_lines(StepView::NeedLine(p), lines) matches StepView::NeedBody(q, k) && {
            &&& k == p.stage->ReadingHeaders_content_length
            &&& q.connection == p.connection
            &&& q.stage is ReadingBody
            &&& q.stage->ReadingBody_method == p.stage->ReadingHeaders_method
            &&& q.stage->ReadingBody_address == p.stage->ReadingHeaders_address
            &&& q.stage->ReadingBody_received == seq![0u8]
            &&& q.stage->ReadingBody_remaining == k
        },
    decreases lines.len(),
{
    let rest = lines.drop_first();
    if lines.len() == 1 {
        lemma_empty_line_asks_for_body(p, lines[0]);
        assert(rest.len() == 0);
        assert(feed_lines(line_step(p, lines[0]), rest) == line_step(p, lines[0]));
    } else {
        assert(other_header_line(lines[0]));
        lemma_other_header_keeps_length(p, lines[0]);
        let next = match line_step(p, lines[0]) {
            StepView::NeedLine(q) => q,
            _ => p,
        };
        assert forall|i: int| 0 <= i < rest.len() - 1 implies other_header_line(#[trigger] rest[i]) by {
            assert(rest[i] == lines[i + 1]);
        }
        assert(rest.last() == lines.last());
        lemma_other_lines_then_empty(next, rest);
    }
}

/// A body announced by `Content-Length` is read: after a `Content-Length`
/// line announcing `n > 0` bytes, any number of lines for other headers, and
/// the empty line, the parser asks for `n` body bytes; a read of those bytes
/// ends the request, whose body is the zero byte the body buffer starts with
/// followed by the bytes read, when that is UTF-8.
pub proof fn lemma_announced_body_is_read(
    p: ParserView,
    lines: Seq<Seq<char>>,
    n: usize,
    chunk: Seq<u8>,
)
    requires
        p.stage is ReadingHeaders,
        n > 0,
        lines.len() >= 2,
        content_length_line(lines[0], n),
        forall|i: int| 1 <= i < lines.len() - 1 ==> other_header_line(#[trigger] lines[i]),
        trim_end_seq(lines.last()).len() == 0,
    ensures
        feed_lines(StepView::NeedLine(p), lines) matches StepView::NeedBody(q, k) && {
            &&& k == n
            &&& q.stage is ReadingBody
            &&& body_step(q, chunk, n) == if valid_utf8(seq![0u8] + chunk) {
                StepView::Done(
                    RequestView {
                        method: p.stage->ReadingHeaders_method,
                        headers: q.stage->ReadingBody_headers,
                        body: Some(decode_utf8(seq![0u8] + chunk)),
                        address: p.stage->ReadingHeaders_address,
                        connection: p.connection,
                    },
                )
            } else {
                StepView::Failed(SipErrorView::UndecodableBody(seq![0u8] + chunk))
            }
        },
{
    lemma_content_length_line_sets_length(p, lines[0], n);
    let next = match line_step(p, lines[0]) {
        StepView::NeedLine(q) => q,
        _ => p,
    };
    let rest = lines.drop_first();
    assert forall|i: int| 0 <= i < rest.len() - 1 implies other_header_line(#[trigger] rest[i]) by {
        assert(rest[i] == lines[i + 1]);
    }
    assert(rest.last() == lines.last());
    lemma_other_lines_then_empty(next, rest);
}

/// Before the request line, blank lines are skipped; a request line with a
/// known method (in any letter case) starts the headers, with none read yet
/// and no body announced; a known-looking line with an unknown method is
/// refused with that method's text; any other line is refused with its
/// trimmed text.
pub proof fn lemma_request_line_read(p: ParserView, line: Seq<char>)
    requires
        p.stage is AwaitingRequestLine,
    ensures
        trim_seq(line).len() == 0 ==> line_step(p, line) == StepView::NeedLine(p),
        trim_seq(line).len() > 0 && request_line_parts(trim_seq(line)) is None ==> line_step(p, line)
            == StepView::Failed(SipErrorView::InvalidRequestLine(trim_seq(line))),
        request_line_parts(trim_seq(line)) matches Some((m, a)) ==> {
            &&& method_from_text(m) is None ==> line_step(p, line) == StepView::Failed(
                SipErrorView::UnknownMethod(m),
            )
            &&& method_from_text(m) matches Some(method) ==> (line_step(p, line) matches StepView::NeedLine(q)
                && {
                &&& q.connection == p.connection
                &&& q.stage is ReadingHeaders
                &&& q.stage->ReadingHeaders_method == method
                &&& q.stage->ReadingHeaders_address == a
                &&& q.stage->ReadingHeaders_headers == Map::<Header, Seq<char>>::empty()
                &&& q.stage->ReadingHeaders_content_length == 0
            })
        },
{
    if request_line_parts(trim_seq(line)) is Some {
        assert(trim_seq(line).len() > 0) by {
            if trim_seq(line).len() == 0 {
                assert(request_line_parts(trim_seq(line)) is None);
            }
        }
    }
}

/// While headers are read: a line that is not a header line is refused with
/// its text (line end cut); a header line with an unknown name is skipped,
/// leaving the state as it was; one whose header refuses its value is
/// refused with that value; otherwise the value is kept for its header,
/// replacing an earlier one.
pub proof fn lemma_header_line_read(p: ParserView, line: Seq<char>)
    requires
        p.stage is ReadingHeaders,
        trim_end_seq(line).len() > 0,
    ensures
        header_line_parts(trim_end_seq(line)) is None ==> line_step(p, line) == StepView::Failed(
            SipErrorView::BadHeaderLine(trim_end_seq(line)),
        ),
        header_line_parts(trim_end_seq(line)) matches Some((name, value)) ==> {
            &&& header_from_text(name) is None ==> line_step(p, line) == StepView::NeedLine(p)
            &&& header_from_text(name) matches Some(h) ==> {
                &&& is_integer_header(h) && parse_i32_spec(value) is None ==> line_step(p, line)
                    == StepView::Failed(SipErrorView::BadHeaderValue(value))
                &&& !(is_integer_header(h) && parse_i32_spec(value) is None) ==> (line_step(p, line) matches StepView::NeedLine(q) && {
                    &&& q.connection == p.connection
                    &&& q.stage is ReadingHeaders
                    &&& q.stage->ReadingHeaders_method == p.stage->ReadingHeaders_method
                    &&& q.stage->ReadingHeaders_address == p.stage->ReadingHeaders_address
                    &&& q.stage->ReadingHeaders_headers == p.stage->ReadingHeaders_headers.insert(h, value)
                })
            }
        },
{
}

/// While headers are read with no body announced, the empty line ends the
/// request, without body, with the headers read.
pub proof fn lemma_empty_line_ends_request(p: ParserView, line: Seq<char>)
    requires
        p.stage is ReadingHeaders,
        p.stage->ReadingHeaders_content_length == 0,
        trim_end_seq(line).len() == 0,
    ensures
        line_step(p, line) == StepView::Done(
            RequestView {
                method: p.stage->ReadingHeaders_method,
                headers: p.stage->ReadingHeaders_headers,
                body: None,
                address: p.stage->ReadingHeaders_address,
                connection: p.connection,
            },
        ),
{
}

/// A read of the body that leaves bytes due asks for the rest: what remains
/// drops by the count read, and the buffer read into is kept whole; a read
/// that leaves nothing due, or a failed read, ends the request with the
/// bytes kept so far.
pub proof fn lemma_body_reads(p: ParserView, chunk: Seq<u8>, read: usize)
    requires
        p.stage is ReadingBody,
        read <= p.stage->ReadingBody_remaining,
    ensures
        read < p.stage->ReadingBody_remaining ==> (body_step(p, chunk, read) matches StepView::NeedBody(q, k) && {
            &&& k == p.stage->ReadingBody_remaining - read
            &&& q.connection == p.connection
            &&& q.stage is ReadingBody
            &&& q.stage->ReadingBody_method == p.stage->ReadingBody_method
            &&& q.stage->ReadingBody_address == p.stage->ReadingBody_address
            &&& q.stage->ReadingBody_headers == p.stage->ReadingBody_headers
            &&& q.stage->ReadingBody_received == p.stage->ReadingBody_received + chunk
            &&& q.stage->ReadingBody_remaining == k
        }),
        read == p.stage->ReadingBody_remaining ==> body_step(p, chunk, read) == body_failure_step(
            ParserView {
                connection: p.connection,
                stage: StageView::ReadingBody {
                    method: p.stage->ReadingBody_method,
                    address: p.stage->ReadingBody_address,
                    headers: p.stage->ReadingBody_headers,
                    received: p.stage->ReadingBody_received + chunk,
                    remaining: 0,
                },
            },
        ),
        body_failure_step(p) == if valid_utf8(p.stage->ReadingBody_received) {
            StepView::Done(
                RequestView {
                    method: p.stage->ReadingBody_method,
                    headers: p.stage->ReadingBody_headers,
                    body: Some(decode_utf8(p.stage->ReadingBody_received)),
                    address: p.stage->ReadingBody_address,
                    connection: p.connection,
                },
            )
        } else {
            StepView::Failed(SipErrorView::UndecodableBody(p.stage->ReadingBody_received))
        },
{
}

/// The lines in which a stream reader receives a rendered request with a
/// body, up to the body: the request line, one line per header, and the
/// empty line.
pub open spec fn rendered_head_lines(q: RequestView) -> Seq<Seq<char>> {
    seq![method_name(q.method) + " "@ + q.address + " SIP/2.0\r\n"@] + header_line_seq(q.headers, 0)
        + seq!["\r\n"@]
}

proof fn lemma_zero_byte_prefix(b: Seq<char>)
    ensures
        valid_utf8(seq![0u8] + encode_utf8(b)),
        decode_utf8(seq![0u8] + encode_utf8(b)) == seq!['\0'] + b,
{
    broadcast use vstd::utf8::encode_utf8_valid_utf8, vstd::utf8::encode_utf8_decode_utf8;

    let x = seq!['\0'] + b;
    assert(x.drop_first() =~= b);
    assert(('\0' as u32) == 0u32);
    assert((0u32 & 0x7Fu32) as u8 == 0u8) by (bit_vector);
    assert(encode_scalar(0u32) =~= seq![0u8]);
    assert(encode_utf8(x) =~= seq![0u8] + encode_utf8(b));
}

/// A request with a body, once rendered, reads back when a stream reader
/// hands its lines to the parser and then the bytes that `Content-Length`
/// announces: the rendered text is those lines, then the body and a line
/// end; the lines lead the parser to ask for exactly the body's bytes; and
/// those bytes end the request, with the same method, address, headers and
/// connection and with the body behind the zero byte that the body buffer
/// starts with. This holds when the address is non-empty without line feed,
/// `Content-Length` gives the body's length in bytes (at least one, and
/// within `i32`), every other header value reads back cleanly
/// ([`value_fits`]), and no header is `AuthenticationInfo`.
pub proof fn lemma_rendered_request_with_body_reads_back(q: RequestView, b: Seq<char>)
    requires
        q.body == Some(b),
        q.address.len() >= 1,
        no_line_feed(q.address),
        0 < encode_utf8(b).len() <= i32::MAX,
        q.headers.contains_key(Header::ContentLength),
        q.headers[Header::ContentLength] == decimal(encode_utf8(b).len()),
        headers_fit(q.headers.remove(Header::ContentLength)),
    ensures
        rendered_head_lines(q).flatten() + b + "\r\n"@ == request_text(q),
        forall|i: int| 0 <= i < rendered_head_lines(q).len() ==> is_whole_line(
            #[trigger] rendered_head_lines(q)[i],
        ),
        feed_lines(
            StepView::NeedLine(
                ParserView { connection: q.connection, stage: StageView::AwaitingRequestLine },
            ),
            rendered_head_lines(q),
        ) matches StepView::NeedBody(p, k) && {
            &&& k == encode_utf8(b).len()
            &&& body_step(p, encode_utf8(b), k) == StepView::Done(
                RequestView {
                    method: q.method,
                    headers: q.headers,
                    body: Some(seq!['\0'] + b),
                    address: q.address,
                    connection: q.connection,
                },
            )
        },
{
    let len = encode_utf8(b).len();
    let m = q.headers;
    let line0 = method_name(q.method) + " "@ + q.address + " SIP/2.0\r\n"@;
    let hs = header_line_seq(m, 0);
    let last = "\r\n"@;
    let lines = rendered_head_lines(q);
    let bare = RequestView {
        method: q.method,
        headers: m,
        body: None,
        address: q.address,
        connection: q.connection,
    };
    // The Content-Length value fits and announces the body.
    lemma_decimal_value(len);
    lemma_decimal_reads_back(len);
    let v = decimal(len);
    assert(!is_white_space(v[0]) && !is_white_space(v.last())) by {
        assert(is_ascii_digit(v[0]));
        assert(is_ascii_digit(v[v.len() - 1]));
    }
    assert(no_line_feed(v)) by {
        assert forall|i: int| 0 <= i < v.len() implies v[i] != '\n' by {
            assert(is_ascii_digit(v[i]));
        }
    }
    assert(headers_fit(m)) by {
        assert forall|h: Header| #[trigger] m.contains_key(h) implies {
            &&& h != Header::AuthenticationInfo
            &&& value_fits(h, m[h])
        } by {
            if h != Header::ContentLength {
                assert(m.remove(Header::ContentLength).contains_key(h));
            }
        }
    }
    lemma_header_code_roundtrip(Header::ContentLength);
    assert(announced_length(m, HEADER_COUNT as nat) == len);
    // The request line.
    lemma_rendered_request_line_reads_back(bare);
    lemma_method_name_from_text(q.method);
    let t = trim_seq(line0);
    assert(t.len() > 0) by {
        assert(request_line_parts(t) is Some);
    }
    let start = ParserView { connection: q.connection, stage: StageView::AwaitingRequestLine };
    let after = StepView::NeedLine(
        ParserView {
            connection: q.connection,
            stage: StageView::ReadingHeaders {
                method: q.method,
                address: q.address,
                headers: Map::empty(),
                content_length: 0,
            },
        },
    );
    assert(line_step(start, line0) == after);
    assert(headers_below(m, 0) =~= Map::<Header, Seq<char>>::empty());
    assert(after == StepView::NeedLine(headers_state(q.connection, q.method, q.address, m, 0)));
    // The header lines and the empty line.
    reveal_strlit("\r\n");
    assert(trim_end_seq(last) =~= Seq::<char>::empty()) by {
        let e = Seq::<char>::empty();
        let r = seq!['\r'];
        assert(last.drop_last() =~= r);
        assert(r.drop_last() =~= e);
        assert(trim_end_seq(e) == e);
        assert(is_white_space(r.last()));
        assert(trim_end_seq(r) == trim_end_seq(e));
        assert(is_white_space(last.last()));
        assert(trim_end_seq(last) == trim_end_seq(r));
    }
    lemma_headers_fed(q.connection, q.method, q.address, m, 0, last);
    assert(lines.drop_first() =~= hs + seq![last]);
    assert(lines[0] == line0);
    let p = ParserView {
        connection: q.connection,
        stage: StageView::ReadingBody {
            method: q.method,
            address: q.address,
            headers: m,
            received: seq![0u8],
            remaining: len as usize,
        },
    };
    assert(feed_lines(StepView::NeedLine(start), lines) == StepView::NeedBody(p, len as usize));
    // The body.
    lemma_zero_byte_prefix(b);
    // The text of the lines.
    lemma_flatten_append(seq![line0] + hs, seq![last]);
    lemma_flatten_append(seq![line0], hs);
    seq![line0].lemma_flatten_one_element();
    seq![last].lemma_flatten_one_element();
    lemma_header_line_seq_text(m, 0);
    assert(header_lines(m, 0) =~= Seq::<char>::empty());
    assert(lines.flatten() + b + "\r\n"@ =~= request_text(q));
    // Each line is whole.
    lemma_header_lines_whole(m, 0);
    lemma_method_name_capitals(q.method);
    reveal_strlit(" SIP/2.0\r\n");
    let mn = method_name(q.method);
    assert(line0.drop_last() =~= mn + " "@ + q.address + " SIP/2.0\r"@) by {
        reveal_strlit(" SIP/2.0\r");
    }
    reveal_strlit(" ");
    reveal_strlit(" SIP/2.0\r");
    assert forall|j: int| 0 <= j < line0.drop_last().len() implies #[trigger] line0.drop_last()[j]
        != '\n' by {
        if j < mn.len() {
            assert(line0.drop_last()[j] == mn[j]);
        } else if j > mn.len() && j < mn.len() + 1 + q.address.len() {
            assert(line0.drop_last()[j] == q.address[j - mn.len() - 1]);
        }
    }
    assert(is_whole_line(last));
    assert forall|i: int| 0 <= i < lines.len() implies is_whole_line(#[trigger] lines[i]) by {
        if i > 0 && i < lines.len() - 1 {
            assert(lines[i] == hs[i - 1]);
        }
    }
}

} // verus!
