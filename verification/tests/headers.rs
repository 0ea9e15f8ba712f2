use telex::error::SipError;
use telex::header::{Header, HEADER_COUNT};
use telex::header_map::HeaderMap;

#[test]
fn header_names_read_back_case_insensitively() {
    assert_eq!(Header::from_string("VIA"), Ok(Header::Via));
    assert_eq!(Header::from_string("content-LENGTH"), Ok(Header::ContentLength));
    assert_eq!(Header::from_string("Call-ID"), Ok(Header::CallID));
    assert_eq!(Header::from_string("WWW-Authenticate"), Ok(Header::WWWAuthenticate));
}

#[test]
fn compact_header_forms() {
    assert_eq!(Header::from_string("i"), Ok(Header::CallID));
    assert_eq!(Header::from_string("M"), Ok(Header::Contact));
    assert_eq!(Header::from_string("l"), Ok(Header::ContentLength));
    assert_eq!(Header::from_string("k"), Ok(Header::Via));
    assert_eq!(Header::from_string("v"), Err(SipError::BadHeader("v".to_string())));
    assert_eq!(Header::CallID.canonical_string(true), "i");
    assert_eq!(Header::Supported.canonical_string(true), "k");
    assert_eq!(Header::Via.canonical_string(true), "v");
    assert_eq!(Header::Date.canonical_string(true), "Date");
    assert_eq!(Header::Via.canonical_string(false), "Via");
}

#[test]
fn unicode_lowercasing_reaches_ascii_names() {
    // KELVIN SIGN lowercases to 'k'.
    assert_eq!(Header::from_string("\u{212A}"), Ok(Header::Via));
}

#[test]
fn unknown_header_is_refused_with_its_text() {
    assert_eq!(Header::from_string("X-Custom"), Err(SipError::BadHeader("X-Custom".to_string())));
}

#[test]
fn every_header_name_reads_back_but_authentication_info() {
    for code in 0..HEADER_COUNT {
        let h = Header::from_code(code).unwrap();
        assert_eq!(h.code(), code);
        let back = Header::from_string(h.name());
        if h == Header::AuthenticationInfo {
            assert!(back.is_err());
        } else {
            assert_eq!(back, Ok(h));
        }
    }
    assert_eq!(Header::from_code(HEADER_COUNT), None);
}

#[test]
fn integer_headers_are_validated() {
    assert!(Header::Expires.validate(&"300".to_string()).is_ok());
    assert_eq!(
        Header::MaxForwards.validate(&"seventy".to_string()),
        Err(SipError::NotAnInteger("seventy".to_string()))
    );
    assert!(Header::ContentLength.validate(&"99999999999".to_string()).is_err());
    assert!(Header::Subject.validate(&"anything at all".to_string()).is_ok());
}

#[test]
fn generated_values() {
    assert_eq!(Header::Server.generate(), "Telex PBX v0.1.0");
    assert_eq!(Header::Allow.generate(), "REGISTER, INVITE, ACK, CANCEL, OPTIONS, BYE");
    assert_eq!(Header::To.generate(), "");
    let date = Header::Date.generate();
    assert!(date.ends_with(" +0000"), "{date}");
    assert!(date.len() == 30 || date.len() == 31, "{date}");
    let weekdays = ["Sun", "Mon", "Tue", "Wed", "Thu", "Fri", "Sat"];
    assert!(weekdays.contains(&&date[..3]), "{date}");
    assert_eq!(&date[3..5], ", ");
}

#[test]
fn header_map_keeps_one_value_per_header() {
    let mut m = HeaderMap::new();
    assert!(!m.contains_key(Header::To));
    m.insert(Header::To, "a".to_string());
    m.insert(Header::From, "b".to_string());
    m.insert(Header::To, "c".to_string());
    assert_eq!(m.get(Header::To), Some(&"c".to_string()));
    assert_eq!(m.get(Header::From), Some(&"b".to_string()));
    assert_eq!(m.get(Header::Via), None);
    let mut out = String::new();
    m.write_lines(&mut out);
    assert_eq!(out, "From: b\r\nTo: c\r\n");
}

#[test]
fn header_names_are_distinct_hyphenated_words() {
    let all: Vec<Header> = (0..HEADER_COUNT).map(|c| Header::from_code(c).unwrap()).collect();
    for compact in [false, true] {
        let names: Vec<String> = all.iter().map(|h| h.canonical_string(compact)).collect();
        for i in 0..names.len() {
            for j in 0..i {
                assert_ne!(names[i], names[j]);
            }
        }
    }
    for h in &all {
        let n = h.name();
        assert!(n.len() >= 2);
        assert!(!n.starts_with('-') && !n.ends_with('-') && !n.contains("--"));
        assert!(n.chars().all(|c| c.is_ascii_alphabetic() || c == '-'));
    }
}

#[test]
fn header_case_forms_agree() {
    for s in ["Content-Length", "cALL-id", "K", "v", "x-custom", "Via ", "www-authenticate", ""] {
        let plain = Header::from_string(s).ok();
        assert_eq!(Header::from_string(&s.to_ascii_lowercase()).ok(), plain);
        assert_eq!(Header::from_string(&s.to_ascii_uppercase()).ok(), plain);
    }
}

#[test]
fn header_names_in_capitals_read_back() {
    for code in 0..HEADER_COUNT {
        let h = Header::from_code(code).unwrap();
        if h != Header::AuthenticationInfo {
            assert_eq!(Header::from_string(&h.name().to_ascii_uppercase()), Ok(h));
        }
    }
}
