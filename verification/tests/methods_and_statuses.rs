use telex::error::SipError;
use telex::method::Method;
use telex::status::Status;

#[test]
fn methods_read_back_case_insensitively() {
    assert_eq!(Method::from_string(&"invite".to_string()), Ok(Method::Invite));
    assert_eq!(Method::from_string(&"Register".to_string()), Ok(Method::Register));
    // LATIN SMALL LETTER LONG S uppercases to 'S'.
    assert_eq!(Method::from_string(&"\u{17f}ubscribe".to_string()), Ok(Method::Subscribe));
    assert_eq!(
        Method::from_string(&"FETCH".to_string()),
        Err(SipError::UnknownMethod("FETCH".to_string()))
    );
}

#[test]
fn method_names() {
    for m in [
        Method::Invite,
        Method::Ack,
        Method::Options,
        Method::Bye,
        Method::Cancel,
        Method::Register,
        Method::Notify,
        Method::Publish,
        Method::Subscribe,
    ] {
        assert_eq!(Method::from_string(&m.name().to_string()), Ok(m));
        assert_eq!(Method::from_string(&m.name().to_lowercase()), Ok(m));
    }
    assert_eq!(Method::Invite.name(), "INVITE");
}

#[test]
fn status_text_and_codes() {
    assert_eq!(Status::OK.text(), "200 OK");
    assert_eq!(Status::OK.code(), 200);
    assert_eq!(Status::NoResponse.text(), "No Response");
    assert_eq!(Status::NoResponse.code(), 0);
    assert_eq!(Status::BusyHere.text(), "486 Busy");
    assert_eq!(Status::Decline.code(), 603);
    assert_eq!(Status::CallTransactionDoesNotExist.text(), "481 Call/Transaction Does Not Exist");
    assert_eq!(Status::GlobalNotAcceptable.text(), "606 Not Acceptable");
}

#[test]
fn status_text_starts_with_its_code() {
    for s in [
        Status::Trying,
        Status::SessionProgress,
        Status::OK,
        Status::UseProxy,
        Status::NotFound,
        Status::Undecipherable,
        Status::MessageTooLarge,
        Status::GlobalNotAcceptable,
    ] {
        let text = s.text();
        assert_eq!(&text[..3], s.code().to_string());
        assert_eq!(&text[3..4], " ");
    }
}

#[test]
fn method_case_forms_agree() {
    for s in ["Invite", "bYe", "subscribe", "fetch", "INVITE ", ""] {
        let plain = Method::from_string(&s.to_string()).ok();
        assert_eq!(Method::from_string(&s.to_ascii_lowercase()).ok(), plain);
        assert_eq!(Method::from_string(&s.to_ascii_uppercase()).ok(), plain);
    }
}
