use telex::connection::ConnectionInfo;
use telex::error::SipError;

fn conn() -> ConnectionInfo {
    ConnectionInfo::new("192.168.1.1".to_string(), 5062).unwrap()
}

#[test]
fn received_and_rport_are_rewritten() {
    let via = "SIP/2.0/UDP 10.0.0.1:5060;branch=z9hG4bK776;rport;received=1.2.3.4".to_string();
    assert_eq!(
        conn().via_header_response(via),
        Ok("SIP/2.0/UDP 10.0.0.1:5060;branch=z9hG4bK776;rport=5062;received=192.168.1.1".to_string())
    );
}

#[test]
fn other_parameters_are_kept() {
    let via = "SIP/2.0/TCP h;branch=abc;ttl=3;maddr".to_string();
    assert_eq!(conn().via_header_response(via.clone()), Ok(via));
}

#[test]
fn empty_parameters_are_kept() {
    assert_eq!(conn().via_header_response("a;".to_string()), Ok("a;".to_string()));
    assert_eq!(conn().via_header_response("a;;rport".to_string()), Ok("a;;rport=5062".to_string()));
}

#[test]
fn rewriting_twice_changes_nothing_more() {
    let once = conn().via_header_response("p;rport=1;received;x=y".to_string()).unwrap();
    assert_eq!(once, "p;rport=5062;received=192.168.1.1;x=y");
    assert_eq!(conn().via_header_response(once.clone()), Ok(once));
}

#[test]
fn malformed_via_is_refused() {
    assert_eq!(conn().via_header_response("no parameters".to_string()), Err(SipError::BadViaHeader));
    assert_eq!(conn().via_header_response(";branch=x".to_string()), Err(SipError::BadViaHeader));
    assert_eq!(conn().via_header_response("a;b\nc".to_string()), Err(SipError::BadViaHeader));
    assert_eq!(conn().via_header_response("a\nb;c".to_string()), Ok("a\nb;c".to_string()));
}

#[test]
fn connection_addresses_must_be_address_text() {
    let c = ConnectionInfo::new("fe80::1".to_string(), 5060).unwrap();
    assert_eq!(c.local_ip(), "fe80::1");
    assert_eq!(c.remote_port(), 5060);
    assert!(ConnectionInfo::new("10.0.0.1;x".to_string(), 5060).is_none());
    assert!(ConnectionInfo::new("10.0.0.1\n".to_string(), 5060).is_none());
}

#[test]
fn a_rewritten_value_is_its_own_rewrite() {
    let c = ConnectionInfo::new("::1".to_string(), 7).unwrap();
    for via in ["h;received=9;rport=8", "h;;x", "a b;rport;received"] {
        let once = c.via_header_response(via.to_string()).unwrap();
        assert_eq!(c.via_header_response(once.clone()), Ok(once));
    }
}
