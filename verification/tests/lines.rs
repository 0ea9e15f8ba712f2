use telex::grammar::{parse_header_line, parse_request_line};

fn pair(a: &str, b: &str) -> Option<(String, String)> {
    Some((a.to_string(), b.to_string()))
}

#[test]
fn request_lines() {
    assert_eq!(
        parse_request_line("REGISTER sip:example.com SIP/2.0"),
        pair("REGISTER", "sip:example.com")
    );
    assert_eq!(parse_request_line("INVITE sip:a b c SIP/2.0"), pair("INVITE", "sip:a b c"));
    // Any character may stand between `SIP` and `2.0`.
    assert_eq!(parse_request_line("ACK x SIPx2.0"), pair("ACK", "x"));
    // And any character may stand between `2` and `0`.
    assert_eq!(parse_request_line("ACK x SIP/2x0"), pair("ACK", "x"));
    assert_eq!(parse_request_line("ACK x SIP/2\n0"), None);
    assert_eq!(parse_request_line("ACK x SIP/2.1"), None);
    assert_eq!(parse_request_line("invite sip:x SIP/2.0"), None);
    assert_eq!(parse_request_line("INVITE  SIP/2.0"), None);
    assert_eq!(parse_request_line("INVITE sip:x SIP/2.0 "), None);
    assert_eq!(parse_request_line("INVITE sip:x\n SIP/2.0"), None);
    assert_eq!(parse_request_line("INVITE sip:x SIP\n2.0"), None);
    assert_eq!(parse_request_line(" SIP/2.0"), None);
    assert_eq!(parse_request_line(""), None);
}

#[test]
fn header_lines() {
    assert_eq!(parse_header_line("Via: SIP/2.0/UDP host"), pair("Via", "SIP/2.0/UDP host"));
    assert_eq!(parse_header_line("Call-ID:\t  abc "), pair("Call-ID", "abc "));
    assert_eq!(parse_header_line("X_y-z: 1"), pair("X_y-z", "1"));
    // A Unicode word character belongs to a name.
    assert_eq!(parse_header_line("Héader: v"), pair("Héader", "v"));
    // The value needs white space before it.
    assert_eq!(parse_header_line("To:x"), None);
    assert_eq!(parse_header_line("To :x"), None);
    assert_eq!(parse_header_line(": x"), None);
    assert_eq!(parse_header_line("A.B: x"), None);
    assert_eq!(parse_header_line("To: a\nb"), None);
    // With only white space after the colon, the last of it is the value.
    assert_eq!(parse_header_line("To:  "), pair("To", " "));
    assert_eq!(parse_header_line("To: "), None);
    assert_eq!(parse_header_line("To: \n"), None);
}
