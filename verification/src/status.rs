//! SIP response statuses: their codes and the status line text.

use vstd::prelude::*;
use crate::number::decimal;

verus! {

/// The response statuses of SIP. `NoResponse` means that no response is sent.
#[derive(Debug, Clone, Copy, PartialEq, Eq, Hash, Structural)]
pub enum Status {
    NoResponse,
    Trying,
    Ringing,
    CallIsBeingForwarded,
    Queued,
    SessionProgress,
    OK,
    MultipleChoices,
    MovedPermanently,
    MovedTemporarily,
    UseProxy,
    AlternativeService,
    BadRequest,
    Unauthorized,
    PaymentRequired,
    Forbidden,
    NotFound,
    MethodNotAllowed,
    NotAcceptable,
    ProxyAuthenticationRequired,
    RequestTimeout,
    Gone,
    RequestEntityTooLarge,
    RequestUriTooLarge,
    UnsupportedMediaType,
    UnsupportedURIScheme,
    BadExtension,
    ExtensionRequired,
    IntervalTooBrief,
    TemporarilyNotAvailable,
    CallTransactionDoesNotExist,
    LoopDetected,
    TooManyHops,
    AddressIncomplete,
    Ambiguous,
    BusyHere,
    RequestTerminated,
    NotAcceptableHere,
    RequestPending,
    Undecipherable,
    InternalServerError,
    NotImplemented,
    BadGateway,
    ServiceUnavailable,
    ServerTimeOut,
    SipVersionNotSupported,
    MessageTooLarge,
    BusyEverywhere,
    Decline,
    DoesNotExistAnywhere,
    GlobalNotAcceptable,
}

/// The numeric code of a status (`0` for `NoResponse`).
pub open spec fn status_code(s: Status) -> u16 {
    match s {
        Status::NoResponse => 0,
        Status::Trying => 100,
        Status::Ringing => 180,
        Status::CallIsBeingForwarded => 181,
        Status::Queued => 182,
        Status::SessionProgress => 183,
        Status::OK => 200,
        Status::MultipleChoices => 300,
        Status::MovedPermanently => 301,
        Status::MovedTemporarily => 302,
        Status::UseProxy => 305,
        Status::AlternativeService => 380,
        Status::BadRequest => 400,
        Status::Unauthorized => 401,
        Status::PaymentRequired => 402,
        Status::Forbidden => 403,
        Status::NotFound => 404,
        Status::MethodNotAllowed => 405,
        Status::NotAcceptable => 406,
        Status::ProxyAuthenticationRequired => 407,
        Status::RequestTimeout => 408,
        Status::Gone => 410,
        Status::RequestEntityTooLarge => 413,
        Status::RequestUriTooLarge => 414,
        Status::UnsupportedMediaType => 415,
        Status::UnsupportedURIScheme => 416,
        Status::BadExtension => 420,
        Status::ExtensionRequired => 421,
        Status::IntervalTooBrief => 423,
        Status::TemporarilyNotAvailable => 480,
        Status::CallTransactionDoesNotExist => 481,
        Status::LoopDetected => 482,
        Status::TooManyHops => 483,
        Status::AddressIncomplete => 484,
        Status::Ambiguous => 485,
        Status::BusyHere => 486,
        Status::RequestTerminated => 487,
        Status::NotAcceptableHere => 488,
        Status::RequestPending => 491,
        Status::Undecipherable => 493,
        Status::InternalServerError => 500,
        Status::NotImplemented => 501,
        Status::BadGateway => 502,
        Status::ServiceUnavailable => 503,
        Status::ServerTimeOut => 504,
        Status::SipVersionNotSupported => 505,
        Status::MessageTooLarge => 513,
        Status::BusyEverywhere => 600,
        Status::Decline => 603,
        Status::DoesNotExistAnywhere => 604,
        Status::GlobalNotAcceptable => 606,
    }
}

/// The text of a status line after `SIP/2.0 `: the code and its reason.
pub open spec fn status_text(s: Status) -> Seq<char> {
    match s {
        Status::NoResponse => "No Response"@,
        Status::Trying => "100 Trying"@,
        Status::Ringing => "180 Ringing"@,
        Status::CallIsBeingForwarded => "181 Call Is Being Forwarded"@,
        Status::Queued => "182 Queued"@,
        Status::SessionProgress => "183 Session Progress"@,
        Status::OK => "200 OK"@,
        Status::MultipleChoices => "300 Multiple Choices"@,
        Status::MovedPermanently => "301 Moved Permanently"@,
        Status::MovedTemporarily => "302 Moved Temporarily"@,
        Status::UseProxy => "305 Use Proxy"@,
        Status::AlternativeService => "380 Alternative Service"@,
        Status::BadRequest => "400 Bad Request"@,
        Status::Unauthorized => "401 Unauthorized"@,
        Status::PaymentRequired => "402 Payment Required"@,
        Status::Forbidden => "403 Forbidden"@,
        Status::NotFound => "404 NotFound"@,
        Status::MethodNotAllowed => "405 Method Not Allowed"@,
        Status::NotAcceptable => "406 Not Acceptable"@,
        Status::ProxyAuthenticationRequired => "407 Proxy Authentication Required"@,
        Status::RequestTimeout => "408 Request Timeout"@,
        Status::Gone => "410 Gone"@,
        Status::RequestEntityTooLarge => "413 Request Entity Too Large"@,
        Status::RequestUriTooLarge => "414 Request Uri Too Large"@,
        Status::UnsupportedMediaType => "415 Unsupported Media Type"@,
        Status::UnsupportedURIScheme => "416 Unsupported URI Scheme"@,
        Status::BadExtension => "420 Bad Extension"@,
        Status::ExtensionRequired => "421 Extension Required"@,
        Status::IntervalTooBrief => "423 Interval Too Brief"@,
        Status::TemporarilyNotAvailable => "480 Temporarily Not Available"@,
        Status::CallTransactionDoesNotExist => "481 Call/Transaction Does Not Exist"@,
        Status::LoopDetected => "482 Loop Detected"@,
        Status::TooManyHops => "483 Too Many Hops"@,
        Status::AddressIncomplete => "484 Address Incomplete"@,
        Status::Ambiguous => "485 Ambiguous"@,
        Status::BusyHere => "486 Busy"@,
        Status::RequestTerminated => "487 Request Terminated"@,
        Status::NotAcceptableHere => "488 Not Acceptable Here"@,
        Status::RequestPending => "491 Request Pending"@,
        Status::Undecipherable => "493 Undecipherable"@,
        Status::InternalServerError => "500 Internal Server Error"@,
        Status::NotImplemented => "501 Not Implemented"@,
        Status::BadGateway => "502 Bad Gateway"@,
        Status::ServiceUnavailable => "503 Service Unavailable"@,
        Status::ServerTimeOut => "504 Server Time Out"@,
        Status::SipVersionNotSupported => "505 SIP Version Not Supported"@,
        Status::MessageTooLarge => "513 Message Too Large"@,
        Status::BusyEverywhere => "600 Busy Everywhere"@,
        Status::Decline => "603 Declined"@,
        Status::DoesNotExistAnywhere => "604 Does Not Exist Anywhere"@,
        Status::GlobalNotAcceptable => "606 Not Acceptable"@,
    }
}

impl Status {
    /// The numeric code of this status (`0` for `NoResponse`).
    pub fn code(&self) -> (r: u16)
        ensures
            r == status_code(*self),
    {
        match self {
            Status::NoResponse => 0,
            Status::Trying => 100,
            Status::Ringing => 180,
            Status::CallIsBeingForwarded => 181,
            Status::Queued => 182,
            Status::SessionProgress => 183,
            Status::OK => 200,
            Status::MultipleChoices => 300,
            Status::MovedPermanently => 301,
            Status::MovedTemporarily => 302,
            Status::UseProxy => 305,
            Status::AlternativeService => 380,
            Status::BadRequest => 400,
            Status::Unauthorized => 401,
            Status::PaymentRequired => 402,
            Status::Forbidden => 403,
            Status::NotFound => 404,
            Status::MethodNotAllowed => 405,
            Status::NotAcceptable => 406,
            Status::ProxyAuthenticationRequired => 407,
            Status::RequestTimeout => 408,
            Status::Gone => 410,
            Status::RequestEntityTooLarge => 413,
            Status::RequestUriTooLarge => 414,
            Status::UnsupportedMediaType => 415,
            Status::UnsupportedURIScheme => 416,
            Status::BadExtension => 420,
            Status::ExtensionRequired => 421,
            Status::IntervalTooBrief => 423,
            Status::TemporarilyNotAvailable => 480,
            Status::CallTransactionDoesNotExist => 481,
            Status::LoopDetected => 482,
            Status::TooManyHops => 483,
            Status::AddressIncomplete => 484,
            Status::Ambiguous => 485,
            Status::BusyHere => 486,
            Status::RequestTerminated => 487,
            Status::NotAcceptableHere => 488,
            Status::RequestPending => 491,
            Status::Undecipherable => 493,
            Status::InternalServerError => 500,
            Status::NotImplemented => 501,
            Status::BadGateway => 502,
            Status::ServiceUnavailable => 503,
            Status::ServerTimeOut => 504,
            Status::SipVersionNotSupported => 505,
            Status::MessageTooLarge => 513,
            Status::BusyEverywhere => 600,
            Status::Decline => 603,
            Status::DoesNotExistAnywhere => 604,
            Status::GlobalNotAcceptable => 606,
        }
    }

    /// The code and reason of this status, as they follow `SIP/2.0 `.
    pub fn text(&self) -> (r: &'static str)
        ensures
            r@ == status_text(*self),
    {
        match self {
            Status::NoResponse => "No Response",
            Status::Trying => "100 Trying",
            Status::Ringing => "180 Ringing",
            Status::CallIsBeingForwarded => "181 Call Is Being Forwarded",
            Status::Queued => "182 Queued",
            Status::SessionProgress => "183 Session Progress",
            Status::OK => "200 OK",
            Status::MultipleChoices => "300 Multiple Choices",
            Status::MovedPermanently => "301 Moved Permanently",
            Status::MovedTemporarily => "302 Moved Temporarily",
            Status::UseProxy => "305 Use Proxy",
            Status::AlternativeService => "380 Alternative Service",
            Status::BadRequest => "400 Bad Request",
            Status::Unauthorized => "401 Unauthorized",
            Status::PaymentRequired => "402 Payment Required",
            Status::Forbidden => "403 Forbidden",
            Status::NotFound => "404 NotFound",
            Status::MethodNotAllowed => "405 Method Not Allowed",
            Status::NotAcceptable => "406 Not Acceptable",
            Status::ProxyAuthenticationRequired => "407 Proxy Authentication Required",
            Status::RequestTimeout => "408 Request Timeout",
            Status::Gone => "410 Gone",
            Status::RequestEntityTooLarge => "413 Request Entity Too Large",
            Status::RequestUriTooLarge => "414 Request Uri Too Large",
            Status::UnsupportedMediaType => "415 Unsupported Media Type",
            Status::UnsupportedURIScheme => "416 Unsupported URI Scheme",
            Status::BadExtension => "420 Bad Extension",
            Status::ExtensionRequired => "421 Extension Required",
            Status::IntervalTooBrief => "423 Interval Too Brief",
            Status::TemporarilyNotAvailable => "480 Temporarily Not Available",
            Status::CallTransactionDoesNotExist => "481 Call/Transaction Does Not Exist",
            Status::LoopDetected => "482 Loop Detected",
            Status::TooManyHops => "483 Too Many Hops",
            Status::AddressIncomplete => "484 Address Incomplete",
            Status::Ambiguous => "485 Ambiguous",
            Status::BusyHere => "486 Busy",
            Status::RequestTerminated => "487 Request Terminated",
            Status::NotAcceptableHere => "488 Not Acceptable Here",
            Status::RequestPending => "491 Request Pending",
            Status::Undecipherable => "493 Undecipherable",
            Status::InternalServerError => "500 Internal Server Error",
            Status::NotImplemented => "501 Not Implemented",
            Status::BadGateway => "502 Bad Gateway",
            Status::ServiceUnavailable => "503 Service Unavailable",
            Status::ServerTimeOut => "504 Server Time Out",
            Status::SipVersionNotSupported => "505 SIP Version Not Supported",
            Status::MessageTooLarge => "513 Message Too Large",
            Status::BusyEverywhere => "600 Busy Everywhere",
            Status::Decline => "603 Declined",
            Status::DoesNotExistAnywhere => "604 Does Not Exist Anywhere",
            Status::GlobalNotAcceptable => "606 Not Acceptable",
        }
    }
}

/// The text of every status but `NoResponse` begins with its numeric code and a
/// space.
pub proof fn lemma_status_text_starts_with_code(s: Status)
    requires
        s != Status::NoResponse,
    ensures
        status_text(s).len() > 4,
        status_text(s).take(3) == decimal(status_code(s) as nat),
        status_text(s)[3] == ' ',
{
    reveal_with_fuel(decimal, 4);
    match s {
        Status::NoResponse => {},
        Status::Trying => {
            reveal_strlit("100 Trying");
            assert(status_text(s).take(3) =~= decimal(100));
        },
        Status::Ringing => {
            reveal_strlit("180 Ringing");
            assert(status_text(s).take(3) =~= decimal(180));
        },
        Status::CallIsBeingForwarded => {
            reveal_strlit("181 Call Is Being Forwarded");
            assert(status_text(s).take(3) =~= decimal(181));
        },
        Status::Queued => {
            reveal_strlit("182 Queued");
            assert(status_text(s).take(3) =~= decimal(182));
        },
        Status::SessionProgress => {
            reveal_strlit("183 Session Progress");
            assert(status_text(s).take(3) =~= decimal(183));
        },
        Status::OK => {
            reveal_strlit("200 OK");
            assert(status_text(s).take(3) =~= decimal(200));
        },
        Status::MultipleChoices => {
            reveal_strlit("300 Multiple Choices");
            assert(status_text(s).take(3) =~= decimal(300));
        },
        Status::MovedPermanently => {
            reveal_strlit("301 Moved Permanently");
            assert(status_text(s).take(3) =~= decimal(301));
        },
        Status::MovedTemporarily => {
            reveal_strlit("302 Moved Temporarily");
            assert(status_text(s).take(3) =~= decimal(302));
        },
        Status::UseProxy => {
            reveal_strlit("305 Use Proxy");
            assert(status_text(s).take(3) =~= decimal(305));
        },
        Status::AlternativeService => {
            reveal_strlit("380 Alternative Service");
            assert(status_text(s).take(3) =~= decimal(380));
        },
        Status::BadRequest => {
            reveal_strlit("400 Bad Request");
            assert(status_text(s).take(3) =~= decimal(400));
        },
        Status::Unauthorized => {
            reveal_strlit("401 Unauthorized");
            assert(status_text(s).take(3) =~= decimal(401));
        },
        Status::PaymentRequired => {
            reveal_strlit("402 Payment Required");
            assert(status_text(s).take(3) =~= decimal(402));
        },
        Status::Forbidden => {
            reveal_strlit("403 Forbidden");
            assert(status_text(s).take(3) =~= decimal(403));
        },
        Status::NotFound => {
            reveal_strlit("404 NotFound");
            assert(status_text(s).take(3) =~= decimal(404));
        },
        Status::MethodNotAllowed => {
            reveal_strlit("405 Method Not Allowed");
            assert(status_text(s).take(3) =~= decimal(405));
        },
        Status::NotAcceptable => {
            reveal_strlit("406 Not Acceptable");
            assert(status_text(s).take(3) =~= decimal(406));
        },
        Status::ProxyAuthenticationRequired => {
            reveal_strlit("407 Proxy Authentication Required");
            assert(status_text(s).take(3) =~= decimal(407));
        },
        Status::RequestTimeout => {
            reveal_strlit("408 Request Timeout");
            assert(status_text(s).take(3) =~= decimal(408));
        },
        Status::Gone => {
            reveal_strlit("410 Gone");
            assert(status_text(s).take(3) =~= decimal(410));
        },
        Status::RequestEntityTooLarge => {
            reveal_strlit("413 Request Entity Too Large");
            assert(status_text(s).take(3) =~= decimal(413));
        },
        Status::RequestUriTooLarge => {
            reveal_strlit("414 Request Uri Too Large");
            assert(status_text(s).take(3) =~= decimal(414));
        },
        Status::UnsupportedMediaType => {
            reveal_strlit("415 Unsupported Media Type");
            assert(status_text(s).take(3) =~= decimal(415));
        },
        Status::UnsupportedURIScheme => {
            reveal_strlit("416 Unsupported URI Scheme");
            assert(status_text(s).take(3) =~= decimal(416));
        },
        Status::BadExtension => {
            reveal_strlit("420 Bad Extension");
            assert(status_text(s).take(3) =~= decimal(420));
        },
        Status::ExtensionRequired => {
            reveal_strlit("421 Extension Required");
            assert(status_text(s).take(3) =~= decimal(421));
        },
        Status::IntervalTooBrief => {
            reveal_strlit("423 Interval Too Brief");
            assert(status_text(s).take(3) =~= decimal(423));
        },
        Status::TemporarilyNotAvailable => {
            reveal_strlit("480 Temporarily Not Available");
            assert(status_text(s).take(3) =~= decimal(480));
        },
        Status::CallTransactionDoesNotExist => {
            reveal_strlit("481 Call/Transaction Does Not Exist");
            assert(status_text(s).take(3) =~= decimal(481));
        },
        Status::LoopDetected => {
            reveal_strlit("482 Loop Detected");
            assert(status_text(s).take(3) =~= decimal(482));
        },
        Status::TooManyHops => {
            reveal_strlit("483 Too Many Hops");
            assert(status_text(s).take(3) =~= decimal(483));
        },
        Status::AddressIncomplete => {
            reveal_strlit("484 Address Incomplete");
            assert(status_text(s).take(3) =~= decimal(484));
        },
        Status::Ambiguous => {
            reveal_strlit("485 Ambiguous");
            assert(status_text(s).take(3) =~= decimal(485));
        },
        Status::BusyHere => {
            reveal_strlit("486 Busy");
            assert(status_text(s).take(3) =~= decimal(486));
        },
        Status::RequestTerminated => {
            reveal_strlit("487 Request Terminated");
            assert(status_text(s).take(3) =~= decimal(487));
        },
        Status::NotAcceptableHere => {
            reveal_strlit("488 Not Acceptable Here");
            assert(status_text(s).take(3) =~= decimal(488));
        },
        Status::RequestPending => {
            reveal_strlit("491 Request Pending");
            assert(status_text(s).take(3) =~= decimal(491));
        },
        Status::Undecipherable => {
            reveal_strlit("493 Undecipherable");
            assert(status_text(s).take(3) =~= decimal(493));
        },
        Status::InternalServerError => {
            reveal_strlit("500 Internal Server Error");
            assert(status_text(s).take(3) =~= decimal(500));
        },
        Status::NotImplemented => {
            reveal_strlit("501 Not Implemented");
            assert(status_text(s).take(3) =~= decimal(501));
        },
        Status::BadGateway => {
            reveal_strlit("502 Bad Gateway");
            assert(status_text(s).take(3) =~= decimal(502));
        },
        Status::ServiceUnavailable => {
            reveal_strlit("503 Service Unavailable");
            assert(status_text(s).take(3) =~= decimal(503));
        },
        Status::ServerTimeOut => {
            reveal_strlit("504 Server Time Out");
            assert(status_text(s).take(3) =~= decimal(504));
        },
        Status::SipVersionNotSupported => {
            reveal_strlit("505 SIP Version Not Supported");
            assert(status_text(s).take(3) =~= decimal(505));
        },
        Status::MessageTooLarge => {
            reveal_strlit("513 Message Too Large");
            assert(status_text(s).take(3) =~= decimal(513));
        },
        Status::BusyEverywhere => {
            reveal_strlit("600 Busy Everywhere");
            assert(status_text(s).take(3) =~= decimal(600));
        },
        Status::Decline => {
            reveal_strlit("603 Declined");
            assert(status_text(s).take(3) =~= decimal(603));
        },
        Status::DoesNotExistAnywhere => {
            reveal_strlit("604 Does Not Exist Anywhere");
            assert(status_text(s).take(3) =~= decimal(604));
        },
        Status::GlobalNotAcceptable => {
            reveal_strlit("606 Not Acceptable");
            assert(status_text(s).take(3) =~= decimal(606));
        },
    }
}


/// The code and the status-line text of every status, as this server writes
/// them (the text of `NoResponse`, which is never sent, is `No Response`).
pub proof fn lemma_status_table(s: Status)
    ensures
        match s {
        Status::NoResponse => status_code(s) == 0 && status_text(s) == "No Response"@,
        Status::Trying => status_code(s) == 100 && status_text(s) == "100 Trying"@,
        Status::Ringing => status_code(s) == 180 && status_text(s) == "180 Ringing"@,
        Status::CallIsBeingForwarded => status_code(s) == 181 && status_text(s) == "181 Call Is Being Forwarded"@,
        Status::Queued => status_code(s) == 182 && status_text(s) == "182 Queued"@,
        Status::SessionProgress => status_code(s) == 183 && status_text(s) == "183 Session Progress"@,
        Status::OK => status_code(s) == 200 && status_text(s) == "200 OK"@,
        Status::MultipleChoices => status_code(s) == 300 && status_text(s) == "300 Multiple Choices"@,
        Status::MovedPermanently => status_code(s) == 301 && status_text(s) == "301 Moved Permanently"@,
        Status::MovedTemporarily => status_code(s) == 302 && status_text(s) == "302 Moved Temporarily"@,
        Status::UseProxy => status_code(s) == 305 && status_text(s) == "305 Use Proxy"@,
        Status::AlternativeService => status_code(s) == 380 && status_text(s) == "380 Alternative Service"@,
        Status::BadRequest => status_code(s) == 400 && status_text(s) == "400 Bad Request"@,
        Status::Unauthorized => status_code(s) == 401 && status_text(s) == "401 Unauthorized"@,
        Status::PaymentRequired => status_code(s) == 402 && status_text(s) == "402 Payment Required"@,
        Status::Forbidden => status_code(s) == 403 && status_text(s) == "403 Forbidden"@,
        Status::NotFound => status_code(s) == 404 && status_text(s) == "404 NotFound"@,
        Status::MethodNotAllowed => status_code(s) == 405 && status_text(s) == "405 Method Not Allowed"@,
        Status::NotAcceptable => status_code(s) == 406 && status_text(s) == "406 Not Acceptable"@,
        Status::ProxyAuthenticationRequired => status_code(s) == 407 && status_text(s) == "407 Proxy Authentication Required"@,
        Status::RequestTimeout => status_code(s) == 408 && status_text(s) == "408 Request Timeout"@,
        Status::Gone => status_code(s) == 410 && status_text(s) == "410 Gone"@,
        Status::RequestEntityTooLarge => status_code(s) == 413 && status_text(s) == "413 Request Entity Too Large"@,
        Status::RequestUriTooLarge => status_code(s) == 414 && status_text(s) == "414 Request Uri Too Large"@,
        Status::UnsupportedMediaType => status_code(s) == 415 && status_text(s) == "415 Unsupported Media Type"@,
        Status::UnsupportedURIScheme => status_code(s) == 416 && status_text(s) == "416 Unsupported URI Scheme"@,
        Status::BadExtension => status_code(s) == 420 && status_text(s) == "420 Bad Extension"@,
        Status::ExtensionRequired => status_code(s) == 421 && status_text(s) == "421 Extension Required"@,
        Status::IntervalTooBrief => status_code(s) == 423 && status_text(s) == "423 Interval Too Brief"@,
        Status::TemporarilyNotAvailable => status_code(s) == 480 && status_text(s) == "480 Temporarily Not Available"@,
        Status::CallTransactionDoesNotExist => status_code(s) == 481 && status_text(s) == "481 Call/Transaction Does Not Exist"@,
        Status::LoopDetected => status_code(s) == 482 && status_text(s) == "482 Loop Detected"@,
        Status::TooManyHops => status_code(s) == 483 && status_text(s) == "483 Too Many Hops"@,
        Status::AddressIncomplete => status_code(s) == 484 && status_text(s) == "484 Address Incomplete"@,
        Status::Ambiguous => status_code(s) == 485 && status_text(s) == "485 Ambiguous"@,
        Status::BusyHere => status_code(s) == 486 && status_text(s) == "486 Busy"@,
        Status::RequestTerminated => status_code(s) == 487 && status_text(s) == "487 Request Terminated"@,
        Status::NotAcceptableHere => status_code(s) == 488 && status_text(s) == "488 Not Acceptable Here"@,
        Status::RequestPending => status_code(s) == 491 && status_text(s) == "491 Request Pending"@,
        Status::Undecipherable => status_code(s) == 493 && status_text(s) == "493 Undecipherable"@,
        Status::InternalServerError => status_code(s) == 500 && status_text(s) == "500 Internal Server Error"@,
        Status::NotImplemented => status_code(s) == 501 && status_text(s) == "501 Not Implemented"@,
        Status::BadGateway => status_code(s) == 502 && status_text(s) == "502 Bad Gateway"@,
        Status::ServiceUnavailable => status_code(s) == 503 && status_text(s) == "503 Service Unavailable"@,
        Status::ServerTimeOut => status_code(s) == 504 && status_text(s) == "504 Server Time Out"@,
        Status::SipVersionNotSupported => status_code(s) == 505 && status_text(s) == "505 SIP Version Not Supported"@,
        Status::MessageTooLarge => status_code(s) == 513 && status_text(s) == "513 Message Too Large"@,
        Status::BusyEverywhere => status_code(s) == 600 && status_text(s) == "600 Busy Everywhere"@,
        Status::Decline => status_code(s) == 603 && status_text(s) == "603 Declined"@,
        Status::DoesNotExistAnywhere => status_code(s) == 604 && status_text(s) == "604 Does Not Exist Anywhere"@,
        Status::GlobalNotAcceptable => status_code(s) == 606 && status_text(s) == "606 Not Acceptable"@,
        },
{
}

} // verus!
