//! Errors reported while reading requests and building responses.

use vstd::prelude::*;
use vstd::utf8::valid_utf8;

verus! {

/// Why a request could not be read or a response could not be built.
///
/// Each variant carries the text that was refused.
#[derive(Debug, Clone, PartialEq, Eq)]
pub enum SipError {
    /// A header name that is not one of the known headers.
    BadHeader(String),
    /// A request method that is not one of the known methods.
    UnknownMethod(String),
    /// The first line of a request is not `METHOD address SIP/2.0`.
    InvalidRequestLine(String),
    /// A header line is not `Name: value`.
    BadHeaderLine(String),
    /// A header whose value must be an integer holds something else.
    NotAnInteger(String),
    /// A header line whose value was refused by [`crate::header::Header::validate`];
    /// it carries that value.
    BadHeaderValue(String),
    /// A `Via` value without a `;` after a non-empty first part.
    BadViaHeader,
    /// A body whose bytes are not UTF-8; it carries those bytes.
    UndecodableBody(Vec<u8>),
}

/// The content of a [`SipError`], with its text as characters.
pub enum SipErrorView {
    BadHeader(Seq<char>),
    UnknownMethod(Seq<char>),
    InvalidRequestLine(Seq<char>),
    BadHeaderLine(Seq<char>),
    NotAnInteger(Seq<char>),
    BadHeaderValue(Seq<char>),
    BadViaHeader,
    UndecodableBody(Seq<u8>),
}

impl View for SipError {
    type V = SipErrorView;

    open spec fn view(&self) -> SipErrorView {
        match self {
            SipError::BadHeader(s) => SipErrorView::BadHeader(s@),
            SipError::UnknownMethod(s) => SipErrorView::UnknownMethod(s@),
            SipError::InvalidRequestLine(s) => SipErrorView::InvalidRequestLine(s@),
            SipError::BadHeaderLine(s) => SipErrorView::BadHeaderLine(s@),
            SipError::NotAnInteger(s) => SipErrorView::NotAnInteger(s@),
            SipError::BadHeaderValue(s) => SipErrorView::BadHeaderValue(s@),
            SipError::BadViaHeader => SipErrorView::BadViaHeader,
            SipError::UndecodableBody(b) => SipErrorView::UndecodableBody(b@),
        }
    }
}

/// The text of the error that `std::str::from_utf8` reports for bytes that
/// are not UTF-8 (such as `invalid utf-8 sequence of 1 bytes from index 3`).
pub uninterp spec fn utf8_error_text(b: Seq<u8>) -> Seq<char>;

/// Calls `std::str::from_utf8` and gives the `Display` text of its error;
/// there is none when the bytes are UTF-8 (when, as its documentation says,
/// it returns `Ok`). The error text is a function of the bytes alone; the
/// contract names it and states nothing more of it.
#[verifier::external_body]
fn utf8_error_message(bytes: &Vec<u8>) -> (r: Option<String>)
    ensures
        r is None <==> valid_utf8(bytes@),
        r matches Some(t) ==> t@ == utf8_error_text(bytes@),
{
    match std::str::from_utf8(bytes.as_slice()) {
        Ok(_) => None,
        Err(e) => Some(e.to_string()),
    }
}

/// The message that describes an error.
pub open spec fn error_message(e: SipErrorView) -> Seq<char> {
    match e {
        SipErrorView::BadHeader(s) => "Bad Header: "@ + s,
        SipErrorView::UnknownMethod(s) => "Unknown Request Method: "@ + s,
        SipErrorView::InvalidRequestLine(s) => "Invalid Request Line: '"@ + s + "'"@,
        SipErrorView::BadHeaderLine(s) => "Bad Header Line: "@ + s,
        SipErrorView::NotAnInteger(s) => "Could not parse '"@ + s + "' to an int"@,
        SipErrorView::BadHeaderValue(s) => "Bad Header Value: 'Could not parse '"@ + s
            + "' to an int'"@,
        SipErrorView::BadViaHeader => "Couldn't parse Via header"@,
        SipErrorView::UndecodableBody(b) => "Could not decode body: "@ + if valid_utf8(b) {
            Seq::empty()
        } else {
            utf8_error_text(b)
        },
    }
}

impl SipError {
    /// The message that describes this error.
    pub fn message(&self) -> (r: String)
        ensures
            r@ == error_message(self@),
    {
        let mut out = String::new();
        match self {
            SipError::BadHeader(s) => {
                out.append("Bad Header: ");
                out.append(s.as_str());
            },
            SipError::UnknownMethod(s) => {
                out.append("Unknown Request Method: ");
                out.append(s.as_str());
            },
            SipError::InvalidRequestLine(s) => {
                out.append("Invalid Request Line: '");
                out.append(s.as_str());
                out.append("'");
            },
            SipError::BadHeaderLine(s) => {
                out.append("Bad Header Line: ");
                out.append(s.as_str());
            },
            SipError::NotAnInteger(s) => {
                out.append("Could not parse '");
                out.append(s.as_str());
                out.append("' to an int");
            },
            SipError::BadHeaderValue(s) => {
                out.append("Bad Header Value: 'Could not parse '");
                out.append(s.as_str());
                out.append("' to an int'");
            },
            SipError::BadViaHeader => {
                out.append("Couldn't parse Via header");
            },
            SipError::UndecodableBody(b) => {
                out.append("Could not decode body: ");
                match utf8_error_message(b) {
                    Some(detail) => out.append(detail.as_str()),
                    None => {},
                }
            },
        }
        assert(out@ =~= error_message(self@));
        out
    }
}


/// The message of each error: its fixed wording with the offending text, as
/// the server logs it.
pub proof fn lemma_error_messages(s: Seq<char>, b: Seq<u8>)
    ensures
        error_message(SipErrorView::BadHeader(s)) == "Bad Header: "@ + s,
        error_message(SipErrorView::UnknownMethod(s)) == "Unknown Request Method: "@ + s,
        error_message(SipErrorView::InvalidRequestLine(s)) == "Invalid Request Line: '"@ + s + "'"@,
        error_message(SipErrorView::BadHeaderLine(s)) == "Bad Header Line: "@ + s,
        error_message(SipErrorView::NotAnInteger(s)) == "Could not parse '"@ + s + "' to an int"@,
        error_message(SipErrorView::BadHeaderValue(s)) == "Bad Header Value: 'Could not parse '"@ + s
            + "' to an int'"@,
        error_message(SipErrorView::BadViaHeader) == "Couldn't parse Via header"@,
        valid_utf8(b) ==> error_message(SipErrorView::UndecodableBody(b)) == "Could not decode body: "@,
        !valid_utf8(b) ==> error_message(SipErrorView::UndecodableBody(b)) == "Could not decode body: "@
            + utf8_error_text(b),
{
    assert("Could not decode body: "@ + Seq::<char>::empty() =~= "Could not decode body: "@);
}

} // verus!
