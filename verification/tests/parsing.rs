use telex::connection::ConnectionInfo;
use telex::error::SipError;
use telex::header::Header;
use telex::method::Method;
use telex::parser::{ParseStep, RequestParser};
use telex::request::Request;

fn conn() -> ConnectionInfo {
    ConnectionInfo::new("10.0.0.2".to_string(), 5070).unwrap()
}

/// Feeds the lines of `text` (each with its line end) and, when asked, the
/// bytes after them, as a stream reader would.
fn parse(text: &str) -> Result<Request, SipError> {
    let bytes = text.as_bytes();
    let mut pos = 0;
    let mut parser = RequestParser::new(conn());
    loop {
        let step = if parser.wants_body() {
            unreachable!()
        } else {
            let end = bytes[pos..].iter().position(|&b| b == b'\n').map(|i| pos + i + 1).unwrap_or(bytes.len());
            let line = std::str::from_utf8(&bytes[pos..end]).unwrap();
            pos = end;
            parser.feed_line(line)
        };
        match step {
            ParseStep::NeedLine(p) => parser = p,
            ParseStep::NeedBody(mut p, mut n) => loop {
                let take = n.min(bytes.len() - pos);
                let mut chunk = vec![0u8; n];
                chunk[..take].copy_from_slice(&bytes[pos..pos + take]);
                pos += take;
                match p.feed_body(chunk, take) {
                    ParseStep::NeedBody(q, m) => {
                        p = q;
                        n = m;
                        if take == 0 {
                            return Err(SipError::BadViaHeader);
                        }
                    }
                    ParseStep::Done(r) => return Ok(r),
                    ParseStep::Failed(e) => return Err(e),
                    ParseStep::NeedLine(_) => unreachable!(),
                }
            },
            ParseStep::Done(r) => return Ok(r),
            ParseStep::Failed(e) => return Err(e),
        }
    }
}

#[test]
fn a_register_request_is_read() {
    let r = parse(
        "\r\n\r\nREGISTER sip:example.com SIP/2.0\r\nVia: SIP/2.0/UDP 1.2.3.4;rport\r\nCSeq: 1 REGISTER\r\nX-Unknown: skipped\r\nmax-forwards: 70\r\n\r\n",
    )
    .unwrap();
    assert_eq!(r.method, Method::Register);
    assert_eq!(r.address, "sip:example.com");
    assert_eq!(r.headers.get(Header::Via), Some(&"SIP/2.0/UDP 1.2.3.4;rport".to_string()));
    assert_eq!(r.headers.get(Header::CSeq), Some(&"1 REGISTER".to_string()));
    assert_eq!(r.headers.get(Header::MaxForwards), Some(&"70".to_string()));
    assert_eq!(r.body, None);
    assert_eq!(r.connection, conn());
    assert_eq!(
        r.render(),
        "REGISTER sip:example.com SIP/2.0\r\nCSeq: 1 REGISTER\r\nMax-Forwards: 70\r\nVia: SIP/2.0/UDP 1.2.3.4;rport\r\n"
    );
}

#[test]
fn compact_and_repeated_headers() {
    let r = parse("OPTIONS x SIP/2.0\r\nk: a;b\r\nv: ignored\r\nVia: c;d\r\n\r\n").unwrap();
    assert_eq!(r.headers.get(Header::Via), Some(&"c;d".to_string()));
}

#[test]
fn a_body_is_read_after_content_length() {
    let r = parse("INVITE sip:b SIP/2.0\r\nl: 5\r\n\r\nhello").unwrap();
    assert_eq!(r.headers.get(Header::ContentLength), Some(&"5".to_string()));
    // The body buffer starts with one zero byte.
    assert_eq!(r.body, Some("\0hello".to_string()));
}

#[test]
fn a_negative_content_length_means_no_body() {
    let r = parse("BYE x SIP/2.0\r\nContent-Length: -4\r\n\r\n").unwrap();
    assert_eq!(r.body, None);
}

#[test]
fn a_non_utf8_body_is_refused() {
    let mut parser = match RequestParser::new(conn()).feed_line("ACK a SIP/2.0\r\n") {
        ParseStep::NeedLine(p) => p,
        _ => panic!(),
    };
    parser = match parser.feed_line("Content-Length: 2\r\n") {
        ParseStep::NeedLine(p) => p,
        _ => panic!(),
    };
    let parser = match parser.feed_line("\r\n") {
        ParseStep::NeedBody(p, 2) => p,
        _ => panic!(),
    };
    assert!(parser.wants_body());
    match parser.feed_body(vec![0xff, 0xfe], 2) {
        ParseStep::Failed(SipError::UndecodableBody(b)) => assert_eq!(b, vec![0, 0xff, 0xfe]),
        _ => panic!(),
    }
}

#[test]
fn a_failed_body_read_ends_the_body() {
    let parser = match RequestParser::new(conn()).feed_line("ACK a SIP/2.0\n") {
        ParseStep::NeedLine(p) => p,
        _ => panic!(),
    };
    let parser = match parser.feed_line("Content-Length: 3\n") {
        ParseStep::NeedLine(p) => p,
        _ => panic!(),
    };
    let parser = match parser.feed_line("\n") {
        ParseStep::NeedBody(p, 3) => p,
        _ => panic!(),
    };
    let parser = match parser.feed_body(vec![b'a', 0, 0], 1) {
        ParseStep::NeedBody(p, 2) => p,
        _ => panic!(),
    };
    match parser.body_read_failed() {
        ParseStep::Done(r) => assert_eq!(r.body, Some("\0a\0\0".to_string())),
        _ => panic!(),
    }
}

#[test]
fn errors() {
    assert_eq!(
        parse("GARBAGE\r\n").err(),
        Some(SipError::InvalidRequestLine("GARBAGE".to_string()))
    );
    assert_eq!(
        parse("FETCH x SIP/2.0\r\n").err(),
        Some(SipError::UnknownMethod("FETCH".to_string()))
    );
    assert_eq!(
        parse("INVITE x SIP/2.0\r\nnot a header\r\n").err(),
        Some(SipError::BadHeaderLine("not a header".to_string()))
    );
    assert_eq!(
        parse("INVITE x SIP/2.0\r\nExpires: soon\r\n").err(),
        Some(SipError::BadHeaderValue("soon".to_string()))
    );
}

#[test]
fn the_end_of_the_stream_ends_the_headers() {
    let r = parse("NOTIFY y SIP/2.0\r\nTo: z\r\n").unwrap();
    assert_eq!(r.method, Method::Notify);
    assert_eq!(r.headers.get(Header::To), Some(&"z".to_string()));
}

#[test]
fn a_rendered_request_reads_back() {
    let mut headers = telex::header_map::HeaderMap::new();
    headers.insert(Header::Via, "SIP/2.0/UDP h;branch=1".to_string());
    headers.insert(Header::To, "<sip:b@x>".to_string());
    headers.insert(Header::MaxForwards, "70".to_string());
    headers.insert(Header::ContentLength, "0".to_string());
    let q = Request {
        method: Method::Subscribe,
        headers,
        body: None,
        address: "sip:b@x".to_string(),
        connection: conn(),
    };
    let text = q.render();
    let back = parse(&text).unwrap();
    assert_eq!(back.method, q.method);
    assert_eq!(back.address, q.address);
    assert_eq!(back.body, None);
    assert_eq!(back.render(), text);
}

#[test]
fn a_request_line_with_any_character_between_2_and_0_is_read() {
    let r = parse("BYE sip:x SIP/2x0\r\n\r\n").unwrap();
    assert_eq!(r.method, Method::Bye);
    assert_eq!(r.address, "sip:x");
}

#[test]
fn error_messages() {
    assert_eq!(SipError::BadHeader("X".to_string()).message(), "Bad Header: X");
    assert_eq!(SipError::UnknownMethod("F".to_string()).message(), "Unknown Request Method: F");
    assert_eq!(
        SipError::InvalidRequestLine("G".to_string()).message(),
        "Invalid Request Line: 'G'"
    );
    assert_eq!(SipError::BadHeaderLine("a b".to_string()).message(), "Bad Header Line: a b");
    assert_eq!(
        SipError::NotAnInteger("x".to_string()).message(),
        "Could not parse 'x' to an int"
    );
    assert_eq!(
        SipError::BadHeaderValue("x".to_string()).message(),
        "Bad Header Value: 'Could not parse 'x' to an int'"
    );
    assert_eq!(SipError::BadViaHeader.message(), "Couldn't parse Via header");
    let bytes = vec![0u8, b'a', 0xff];
    let expected = format!(
        "Could not decode body: {}",
        String::from_utf8(bytes.clone()).unwrap_err()
    );
    assert_eq!(SipError::UndecodableBody(bytes).message(), expected);
    assert_eq!(
        SipError::UndecodableBody(vec![0, 0xe2, 0x82]).message(),
        "Could not decode body: incomplete utf-8 byte sequence from index 1"
    );
}
