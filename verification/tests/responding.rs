use telex::connection::ConnectionInfo;
use telex::error::SipError;
use telex::handler::{build_response, plan_replies, Reply};
use telex::header::Header;
use telex::header_map::HeaderMap;
use telex::method::Method;
use telex::request::Request;
use telex::response::Response;
use telex::status::Status;

fn request(method: Method, headers: &[(Header, &str)]) -> Request {
    let mut map = HeaderMap::new();
    for (h, v) in headers {
        map.insert(*h, v.to_string());
    }
    Request {
        method,
        headers: map,
        body: None,
        address: "sip:x".to_string(),
        connection: ConnectionInfo::new("10.1.1.1".to_string(), 6000).unwrap(),
    }
}

fn value(r: &Response, h: Header) -> Option<String> {
    r.headers.get(h).cloned()
}

#[test]
fn a_response_copies_the_dialog_headers() {
    let q = request(
        Method::Register,
        &[
            (Header::CSeq, "1 REGISTER"),
            (Header::From, "<sip:a>"),
            (Header::To, "<sip:b>"),
            (Header::CallID, "xyz"),
            (Header::Subject, "not copied"),
            (Header::Via, "SIP/2.0/UDP h;rport"),
        ],
    );
    let r = Response::new(&q, Status::OK, None).unwrap();
    assert_eq!(r.status, Status::OK);
    assert_eq!(value(&r, Header::CSeq).as_deref(), Some("1 REGISTER"));
    assert_eq!(value(&r, Header::From).as_deref(), Some("<sip:a>"));
    assert_eq!(value(&r, Header::To).as_deref(), Some("<sip:b>"));
    assert_eq!(value(&r, Header::CallID).as_deref(), Some("xyz"));
    assert_eq!(value(&r, Header::Subject), None);
    assert_eq!(value(&r, Header::Via).as_deref(), Some("SIP/2.0/UDP h;rport=6000"));
    assert_eq!(value(&r, Header::Server).as_deref(), Some("Telex PBX v0.1.0"));
    assert_eq!(
        value(&r, Header::Allow).as_deref(),
        Some("REGISTER, INVITE, ACK, CANCEL, OPTIONS, BYE")
    );
    assert_eq!(value(&r, Header::ContentLength).as_deref(), Some("0"));
    assert!(value(&r, Header::Date).is_some());
    assert_eq!(r.body, None);
}

#[test]
fn a_body_sets_its_length_in_bytes() {
    let q = request(Method::Options, &[]);
    let r = Response::new(&q, Status::OK, Some("héllo".to_string())).unwrap();
    assert_eq!(value(&r, Header::ContentLength).as_deref(), Some("6"));
    assert_eq!(r.body.as_deref(), Some("héllo"));
}

#[test]
fn a_bad_via_refuses_the_response() {
    let q = request(Method::Options, &[(Header::Via, "no-params")]);
    assert_eq!(Response::new(&q, Status::OK, None).err(), Some(SipError::BadViaHeader));
}

#[test]
fn set_header_validates() {
    let q = request(Method::Options, &[]);
    let mut r = Response::new(&q, Status::OK, None).unwrap();
    assert_eq!(
        r.set_header(Header::Expires, "never".to_string()),
        Err(SipError::NotAnInteger("never".to_string()))
    );
    assert_eq!(value(&r, Header::Expires), None);
    assert_eq!(r.set_header(Header::Expires, "60".to_string()), Ok(()));
    assert_eq!(value(&r, Header::Expires).as_deref(), Some("60"));
    assert_eq!(
        r.generate_header(Header::MaxForwards),
        Err(SipError::NotAnInteger(String::new()))
    );
    assert_eq!(r.generate_header(Header::Subject), Ok(()));
    assert_eq!(value(&r, Header::Subject).as_deref(), Some(""));
}

#[test]
fn copy_header_from_request() {
    let q = request(Method::Options, &[(Header::Expires, "x")]);
    let mut r = Response { status: Status::OK, headers: HeaderMap::new(), body: None };
    assert_eq!(r.copy_header_from_request(Header::To, &q), Ok(()));
    assert_eq!(value(&r, Header::To), None);
    assert!(r.copy_header_from_request(Header::Expires, &q).is_err());
}

#[test]
fn rendering_a_response() {
    let mut r = Response { status: Status::Ringing, headers: HeaderMap::new(), body: None };
    r.set_header(Header::To, "b".to_string()).unwrap();
    r.set_header(Header::CallID, "c".to_string()).unwrap();
    assert_eq!(r.render(), "SIP/2.0 180 Ringing\r\nCall-ID: c\r\nTo: b\r\n\r\n");
    r.set_body("hi".to_string()).unwrap();
    assert_eq!(
        r.render(),
        "SIP/2.0 180 Ringing\r\nCall-ID: c\r\nContent-Length: 2\r\nTo: b\r\n\r\nhi\r\n\r\n"
    );
}

fn statuses(plan: &[Reply]) -> Vec<Option<Status>> {
    plan.iter()
        .map(|r| match r {
            Reply::Respond(s, _) => Some(*s),
            Reply::Pause(_) => None,
        })
        .collect()
}

#[test]
fn plans() {
    let reg = plan_replies(&request(Method::Register, &[(Header::Authorization, "x")]));
    assert_eq!(statuses(&reg), vec![Some(Status::OK)]);
    match &reg[0] {
        Reply::Respond(_, s) => assert_eq!(
            s,
            &vec![
                (Header::Contact, "<sip:user@172.19.195.144>".to_string()),
                (Header::Expires, "300".to_string())
            ]
        ),
        _ => panic!(),
    }
    let unauth = plan_replies(&request(Method::Register, &[]));
    assert_eq!(statuses(&unauth), vec![Some(Status::Unauthorized)]);
    let invite = plan_replies(&request(Method::Invite, &[(Header::To, "<sip:b>")]));
    assert_eq!(statuses(&invite), vec![Some(Status::Trying), None, Some(Status::Ringing)]);
    assert!(matches!(invite[1], Reply::Pause(1000)));
    assert!(plan_replies(&request(Method::Ack, &[])).is_empty());
    assert_eq!(statuses(&plan_replies(&request(Method::Cancel, &[]))), vec![Some(Status::OK)]);
    assert_eq!(statuses(&plan_replies(&request(Method::Options, &[]))), vec![Some(Status::OK)]);
    assert_eq!(
        statuses(&plan_replies(&request(Method::Bye, &[]))),
        vec![Some(Status::NotImplemented)]
    );
}

#[test]
fn building_planned_responses() {
    let q = request(Method::Invite, &[(Header::To, "<sip:b>")]);
    let r = build_response(&q, Status::Trying, &vec![(Header::Contact, "<sip:b>".to_string())]).unwrap();
    assert_eq!(r.status, Status::Trying);
    assert_eq!(value(&r, Header::Contact).as_deref(), Some("<sip:b>"));
    assert_eq!(
        build_response(&q, Status::OK, &vec![(Header::Expires, "x".to_string())]).err(),
        Some(SipError::NotAnInteger("x".to_string()))
    );
}
