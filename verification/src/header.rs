//! SIP header names: their wire spellings, their compact forms, the values
//! this server generates for some of them, and the check of their values.

use vstd::prelude::*;
use crate::error::SipError;
use crate::number::{all_digits, parse_i32, parse_i32_spec};
use crate::text::{chars_equal, chars_of};
use crate::unicode::{
    ascii_lowercase, ascii_uppercase, lemma_ascii_case_forms, lowercase_string, to_lowercase,
};
use vstd::utf8::is_ascii_chars;

verus! {

/// The SIP headers this server knows.
#[derive(Debug, Clone, Copy, PartialEq, Eq, Hash, Structural)]
pub enum Header {
    Accept,
    AcceptEncoding,
    AcceptLanguage,
    AlertInfo,
    Allow,
    AuthenticationInfo,
    Authorization,
    CallID,
    CallInfo,
    Contact,
    ContentDisposition,
    ContentEncoding,
    ContentLanguage,
    ContentLength,
    ContentType,
    CSeq,
    Date,
    ErrorInfo,
    Expires,
    From,
    InReplyTo,
    MaxForwards,
    MIMEVersion,
    MinExpires,
    Organization,
    Priority,
    ProxyAuthenticate,
    ProxyAuthorization,
    ProxyRequire,
    RecordRoute,
    ReplyTo,
    Require,
    RetryAfter,
    Route,
    Server,
    Subject,
    Supported,
    Timestamp,
    To,
    Unsupported,
    UserAgent,
    Via,
    Warning,
    WWWAuthenticate,
}

/// The header type under the name that value checking uses.
pub type SipHeader = Header;

/// How many headers there are; their codes are `0..HEADER_COUNT`.
pub const HEADER_COUNT: u8 = 44;

/// The position of a header in the declaration order of [`Header`].
pub open spec fn header_code(h: Header) -> u8 {
    match h {
        Header::Accept => 0,
        Header::AcceptEncoding => 1,
        Header::AcceptLanguage => 2,
        Header::AlertInfo => 3,
        Header::Allow => 4,
        Header::AuthenticationInfo => 5,
        Header::Authorization => 6,
        Header::CallID => 7,
        Header::CallInfo => 8,
        Header::Contact => 9,
        Header::ContentDisposition => 10,
        Header::ContentEncoding => 11,
        Header::ContentLanguage => 12,
        Header::ContentLength => 13,
        Header::ContentType => 14,
        Header::CSeq => 15,
        Header::Date => 16,
        Header::ErrorInfo => 17,
        Header::Expires => 18,
        Header::From => 19,
        Header::InReplyTo => 20,
        Header::MaxForwards => 21,
        Header::MIMEVersion => 22,
        Header::MinExpires => 23,
        Header::Organization => 24,
        Header::Priority => 25,
        Header::ProxyAuthenticate => 26,
        Header::ProxyAuthorization => 27,
        Header::ProxyRequire => 28,
        Header::RecordRoute => 29,
        Header::ReplyTo => 30,
        Header::Require => 31,
        Header::RetryAfter => 32,
        Header::Route => 33,
        Header::Server => 34,
        Header::Subject => 35,
        Header::Supported => 36,
        Header::Timestamp => 37,
        Header::To => 38,
        Header::Unsupported => 39,
        Header::UserAgent => 40,
        Header::Via => 41,
        Header::Warning => 42,
        Header::WWWAuthenticate => 43,
    }
}

/// The header whose code is `n`, if any.
pub open spec fn header_from_code(n: u8) -> Option<Header> {
    match n {
        0 => Some(Header::Accept),
        1 => Some(Header::AcceptEncoding),
        2 => Some(Header::AcceptLanguage),
        3 => Some(Header::AlertInfo),
        4 => Some(Header::Allow),
        5 => Some(Header::AuthenticationInfo),
        6 => Some(Header::Authorization),
        7 => Some(Header::CallID),
        8 => Some(Header::CallInfo),
        9 => Some(Header::Contact),
        10 => Some(Header::ContentDisposition),
        11 => Some(Header::ContentEncoding),
        12 => Some(Header::ContentLanguage),
        13 => Some(Header::ContentLength),
        14 => Some(Header::ContentType),
        15 => Some(Header::CSeq),
        16 => Some(Header::Date),
        17 => Some(Header::ErrorInfo),
        18 => Some(Header::Expires),
        19 => Some(Header::From),
        20 => Some(Header::InReplyTo),
        21 => Some(Header::MaxForwards),
        22 => Some(Header::MIMEVersion),
        23 => Some(Header::MinExpires),
        24 => Some(Header::Organization),
        25 => Some(Header::Priority),
        26 => Some(Header::ProxyAuthenticate),
        27 => Some(Header::ProxyAuthorization),
        28 => Some(Header::ProxyRequire),
        29 => Some(Header::RecordRoute),
        30 => Some(Header::ReplyTo),
        31 => Some(Header::Require),
        32 => Some(Header::RetryAfter),
        33 => Some(Header::Route),
        34 => Some(Header::Server),
        35 => Some(Header::Subject),
        36 => Some(Header::Supported),
        37 => Some(Header::Timestamp),
        38 => Some(Header::To),
        39 => Some(Header::Unsupported),
        40 => Some(Header::UserAgent),
        41 => Some(Header::Via),
        42 => Some(Header::Warning),
        43 => Some(Header::WWWAuthenticate),
        _ => None,
    }
}

/// The full name of a header as this server writes it.
pub open spec fn header_name(h: Header) -> Seq<char> {
    match h {
        Header::Accept => "Accept"@,
        Header::AcceptEncoding => "Accept-Encoding"@,
        Header::AcceptLanguage => "Accept-Language"@,
        Header::AlertInfo => "Alert-Info"@,
        Header::Allow => "Allow"@,
        Header::AuthenticationInfo => "AuthenticationInfo"@,
        Header::Authorization => "Authorization"@,
        Header::CallID => "Call-ID"@,
        Header::CallInfo => "Call-Info"@,
        Header::Contact => "Contact"@,
        Header::ContentDisposition => "Content-Disposition"@,
        Header::ContentEncoding => "Content-Encoding"@,
        Header::ContentLanguage => "Content-Language"@,
        Header::ContentLength => "Content-Length"@,
        Header::ContentType => "Content-Type"@,
        Header::CSeq => "CSeq"@,
        Header::Date => "Date"@,
        Header::ErrorInfo => "Error-Info"@,
        Header::Expires => "Expires"@,
        Header::From => "From"@,
        Header::InReplyTo => "In-Reply-To"@,
        Header::MaxForwards => "Max-Forwards"@,
        Header::MIMEVersion => "MIME-Version"@,
        Header::MinExpires => "Min-Expires"@,
        Header::Organization => "Organization"@,
        Header::Priority => "Priority"@,
        Header::ProxyAuthenticate => "Proxy-Authenticate"@,
        Header::ProxyAuthorization => "Proxy-Authorization"@,
        Header::ProxyRequire => "Proxy-Require"@,
        Header::RecordRoute => "Record-Route"@,
        Header::ReplyTo => "Reply-To"@,
        Header::Require => "Require"@,
        Header::RetryAfter => "Retry-After"@,
        Header::Route => "Route"@,
        Header::Server => "Server"@,
        Header::Subject => "Subject"@,
        Header::Supported => "Supported"@,
        Header::Timestamp => "Timestamp"@,
        Header::To => "To"@,
        Header::Unsupported => "Unsupported"@,
        Header::UserAgent => "User-Agent"@,
        Header::Via => "Via"@,
        Header::Warning => "Warning"@,
        Header::WWWAuthenticate => "WWW-Authenticate"@,
    }
}

/// The name written for a header: its compact form when `compact` is set
/// and the header has one, else its full name.
pub open spec fn canonical_name(h: Header, compact: bool) -> Seq<char> {
    if compact {
        match h {
            Header::CallID => "i"@,
            Header::Contact => "m"@,
            Header::ContentEncoding => "e"@,
            Header::ContentLength => "l"@,
            Header::ContentType => "c"@,
            Header::From => "f"@,
            Header::Subject => "s"@,
            Header::Supported => "k"@,
            Header::To => "t"@,
            Header::Via => "v"@,
            _ => header_name(h),
        }
    } else {
        header_name(h)
    }
}

/// The header that a lowercase header name denotes: the full names and the
/// one-letter forms that requests may use.
pub open spec fn header_from_lowercase(s: Seq<char>) -> Option<Header> {
    if s == "accept"@ {
        Some(Header::Accept)
    } else if s == "accept-encoding"@ {
        Some(Header::AcceptEncoding)
    } else if s == "accept-language"@ {
        Some(Header::AcceptLanguage)
    } else if s == "alert-info"@ {
        Some(Header::AlertInfo)
    } else if s == "allow"@ {
        Some(Header::Allow)
    } else if s == "authentication-info"@ {
        Some(Header::AuthenticationInfo)
    } else if s == "authorization"@ {
        Some(Header::Authorization)
    } else if s == "call-id"@ || s == "i"@ {
        Some(Header::CallID)
    } else if s == "call-info"@ {
        Some(Header::CallInfo)
    } else if s == "contact"@ || s == "m"@ {
        Some(Header::Contact)
    } else if s == "content-disposition"@ {
        Some(Header::ContentDisposition)
    } else if s == "content-encoding"@ || s == "e"@ {
        Some(Header::ContentEncoding)
    } else if s == "content-language"@ {
        Some(Header::ContentLanguage)
    } else if s == "content-length"@ || s == "l"@ {
        Some(Header::ContentLength)
    } else if s == "content-type"@ || s == "c"@ {
        Some(Header::ContentType)
    } else if s == "cseq"@ {
        Some(Header::CSeq)
    } else if s == "date"@ {
        Some(Header::Date)
    } else if s == "error-info"@ {
        Some(Header::ErrorInfo)
    } else if s == "expires"@ {
        Some(Header::Expires)
    } else if s == "from"@ || s == "f"@ {
        Some(Header::From)
    } else if s == "in-reply-to"@ {
        Some(Header::InReplyTo)
    } else if s == "max-forwards"@ {
        Some(Header::MaxForwards)
    } else if s == "mime-version"@ {
        Some(Header::MIMEVersion)
    } else if s == "min-expires"@ {
        Some(Header::MinExpires)
    } else if s == "organization"@ {
        Some(Header::Organization)
    } else if s == "priority"@ {
        Some(Header::Priority)
    } else if s == "proxy-authenticate"@ {
        Some(Header::ProxyAuthenticate)
    } else if s == "proxy-authorization"@ {
        Some(Header::ProxyAuthorization)
    } else if s == "proxy-require"@ {
        Some(Header::ProxyRequire)
    } else if s == "record-route"@ {
        Some(Header::RecordRoute)
    } else if s == "reply-to"@ {
        Some(Header::ReplyTo)
    } else if s == "require"@ {
        Some(Header::Require)
    } else if s == "retry-after"@ {
        Some(Header::RetryAfter)
    } else if s == "route"@ {
        Some(Header::Route)
    } else if s == "server"@ {
        Some(Header::Server)
    } else if s == "subject"@ || s == "s"@ {
        Some(Header::Subject)
    } else if s == "supported"@ {
        Some(Header::Supported)
    } else if s == "timestamp"@ {
        Some(Header::Timestamp)
    } else if s == "to"@ || s == "t"@ {
        Some(Header::To)
    } else if s == "unsupported"@ {
        Some(Header::Unsupported)
    } else if s == "user-agent"@ {
        Some(Header::UserAgent)
    } else if s == "via"@ || s == "k"@ {
        Some(Header::Via)
    } else if s == "warning"@ {
        Some(Header::Warning)
    } else if s == "www-authenticate"@ {
        Some(Header::WWWAuthenticate)
    } else {
        None
    }
}

/// The header that a name denotes in any letter case: the name lowercased
/// (see [`lowercase_string`]) and looked up.
pub open spec fn header_from_text(s: Seq<char>) -> Option<Header> {
    header_from_lowercase(lowercase_string(s))
}

/// The headers whose value must be an integer.
pub open spec fn is_integer_header(h: Header) -> bool {
    ||| h == Header::Expires
    ||| h == Header::ContentLength
    ||| h == Header::MaxForwards
}

/// The value that [`Header::generate`] gives for every header but `Date`
/// (whose value is the current time, see [`is_rfc2822_utc`]).
pub open spec fn generated_value(h: Header) -> Seq<char> {
    match h {
        Header::Server => "Telex PBX v0.1.0"@,
        Header::Allow => "REGISTER, INVITE, ACK, CANCEL, OPTIONS, BYE"@,
        _ => Seq::empty(),
    }
}

/// An English weekday abbreviation: `Sun` to `Sat`.
pub open spec fn is_short_weekday(s: Seq<char>) -> bool {
    ||| s == "Sun"@
    ||| s == "Mon"@
    ||| s == "Tue"@
    ||| s == "Wed"@
    ||| s == "Thu"@
    ||| s == "Fri"@
    ||| s == "Sat"@
}

/// An English month abbreviation: `Jan` to `Dec`.
pub open spec fn is_short_month(s: Seq<char>) -> bool {
    ||| s == "Jan"@
    ||| s == "Feb"@
    ||| s == "Mar"@
    ||| s == "Apr"@
    ||| s == "May"@
    ||| s == "Jun"@
    ||| s == "Jul"@
    ||| s == "Aug"@
    ||| s == "Sep"@
    ||| s == "Oct"@
    ||| s == "Nov"@
    ||| s == "Dec"@
}

/// A date in the RFC 2822 form for UTC, `Www, D Mmm YYYY HH:MM:SS +0000`:
/// a weekday, a comma, the day of the month in one or two digits (no leading
/// zero), a month, a four-digit year, the time in two-digit fields, and the
/// zero offset.
pub open spec fn is_rfc2822_utc(s: Seq<char>) -> bool {
    let d = s.len() - 29;
    &&& (s.len() == 30 || s.len() == 31)
    &&& is_short_weekday(s.take(3))
    &&& s[3] == ','
    &&& s[4] == ' '
    &&& all_digits(s.subrange(5, 5 + d))
    &&& s[5] != '0'
    &&& s[5 + d] == ' '
    &&& is_short_month(s.subrange(6 + d, 9 + d))
    &&& s[9 + d] == ' '
    &&& all_digits(s.subrange(10 + d, 14 + d))
    &&& s[14 + d] == ' '
    &&& all_digits(s.subrange(15 + d, 17 + d))
    &&& s[17 + d] == ':'
    &&& all_digits(s.subrange(18 + d, 20 + d))
    &&& s[20 + d] == ':'
    &&& all_digits(s.subrange(21 + d, 23 + d))
    &&& s.skip(23 + d) == " +0000"@
}

/// Calls `chrono::Utc::now` and formats the result with
/// `chrono::DateTime::to_rfc2822`: the current time in the form
/// `Tue, 1 Jul 2003 10:52:37 +0000`. The two calls share one wrapper because
/// the time value passed between them is of the type `DateTime<Utc>`, which
/// is generic over a time-zone trait of `chrono` and is not declared here.
/// The contract states the form that `write_rfc2822` gives every time of
/// years 0 to 9999 in UTC (English abbreviations, the day without padding,
/// two-digit time fields, offset `+0000`); which time it is depends on the
/// clock and is not stated. `Utc::now` panics only when the system clock is
/// before 1970, and `to_rfc2822` only for a year outside `0..=9999`.
#[verifier::external_body]
fn current_date_rfc2822() -> (r: String)
    ensures
        is_rfc2822_utc(r@),
{
    chrono::Utc::now().to_rfc2822()
}

impl Header {
    /// The position of this header in the declaration order.
    pub fn code(&self) -> (r: u8)
        ensures
            r == header_code(*self),
            r < HEADER_COUNT,
    {
        match self {
            Header::Accept => 0,
            Header::AcceptEncoding => 1,
            Header::AcceptLanguage => 2,
            Header::AlertInfo => 3,
            Header::Allow => 4,
            Header::AuthenticationInfo => 5,
            Header::Authorization => 6,
            Header::CallID => 7,
            Header::CallInfo => 8,
            Header::Contact => 9,
            Header::ContentDisposition => 10,
            Header::ContentEncoding => 11,
            Header::ContentLanguage => 12,
            Header::ContentLength => 13,
            Header::ContentType => 14,
            Header::CSeq => 15,
            Header::Date => 16,
            Header::ErrorInfo => 17,
            Header::Expires => 18,
            Header::From => 19,
            Header::InReplyTo => 20,
            Header::MaxForwards => 21,
            Header::MIMEVersion => 22,
            Header::MinExpires => 23,
            Header::Organization => 24,
            Header::Priority => 25,
            Header::ProxyAuthenticate => 26,
            Header::ProxyAuthorization => 27,
            Header::ProxyRequire => 28,
            Header::RecordRoute => 29,
            Header::ReplyTo => 30,
            Header::Require => 31,
            Header::RetryAfter => 32,
            Header::Route => 33,
            Header::Server => 34,
            Header::Subject => 35,
            Header::Supported => 36,
            Header::Timestamp => 37,
            Header::To => 38,
            Header::Unsupported => 39,
            Header::UserAgent => 40,
            Header::Via => 41,
            Header::Warning => 42,
            Header::WWWAuthenticate => 43,
        }
    }

    /// The header whose code is `n`, if any.
    pub fn from_code(n: u8) -> (r: Option<Header>)
        ensures
            r == header_from_code(n),
    {
        match n {
            0 => Some(Header::Accept),
            1 => Some(Header::AcceptEncoding),
            2 => Some(Header::AcceptLanguage),
            3 => Some(Header::AlertInfo),
            4 => Some(Header::Allow),
            5 => Some(Header::AuthenticationInfo),
            6 => Some(Header::Authorization),
            7 => Some(Header::CallID),
            8 => Some(Header::CallInfo),
            9 => Some(Header::Contact),
            10 => Some(Header::ContentDisposition),
            11 => Some(Header::ContentEncoding),
            12 => Some(Header::ContentLanguage),
            13 => Some(Header::ContentLength),
            14 => Some(Header::ContentType),
            15 => Some(Header::CSeq),
            16 => Some(Header::Date),
            17 => Some(Header::ErrorInfo),
            18 => Some(Header::Expires),
            19 => Some(Header::From),
            20 => Some(Header::InReplyTo),
            21 => Some(Header::MaxForwards),
            22 => Some(Header::MIMEVersion),
            23 => Some(Header::MinExpires),
            24 => Some(Header::Organization),
            25 => Some(Header::Priority),
            26 => Some(Header::ProxyAuthenticate),
            27 => Some(Header::ProxyAuthorization),
            28 => Some(Header::ProxyRequire),
            29 => Some(Header::RecordRoute),
            30 => Some(Header::ReplyTo),
            31 => Some(Header::Require),
            32 => Some(Header::RetryAfter),
            33 => Some(Header::Route),
            34 => Some(Header::Server),
            35 => Some(Header::Subject),
            36 => Some(Header::Supported),
            37 => Some(Header::Timestamp),
            38 => Some(Header::To),
            39 => Some(Header::Unsupported),
            40 => Some(Header::UserAgent),
            41 => Some(Header::Via),
            42 => Some(Header::Warning),
            43 => Some(Header::WWWAuthenticate),
            _ => None,
        }
    }

    /// The full name of this header, as it is written on the wire.
    pub fn name(&self) -> (r: &'static str)
        ensures
            r@ == header_name(*self),
    {
        match self {
            Header::Accept => "Accept",
            Header::AcceptEncoding => "Accept-Encoding",
            Header::AcceptLanguage => "Accept-Language",
            Header::AlertInfo => "Alert-Info",
            Header::Allow => "Allow",
            Header::AuthenticationInfo => "AuthenticationInfo",
            Header::Authorization => "Authorization",
            Header::CallID => "Call-ID",
            Header::CallInfo => "Call-Info",
            Header::Contact => "Contact",
            Header::ContentDisposition => "Content-Disposition",
            Header::ContentEncoding => "Content-Encoding",
            Header::ContentLanguage => "Content-Language",
            Header::ContentLength => "Content-Length",
            Header::ContentType => "Content-Type",
            Header::CSeq => "CSeq",
            Header::Date => "Date",
            Header::ErrorInfo => "Error-Info",
            Header::Expires => "Expires",
            Header::From => "From",
            Header::InReplyTo => "In-Reply-To",
            Header::MaxForwards => "Max-Forwards",
            Header::MIMEVersion => "MIME-Version",
            Header::MinExpires => "Min-Expires",
            Header::Organization => "Organization",
            Header::Priority => "Priority",
            Header::ProxyAuthenticate => "Proxy-Authenticate",
            Header::ProxyAuthorization => "Proxy-Authorization",
            Header::ProxyRequire => "Proxy-Require",
            Header::RecordRoute => "Record-Route",
            Header::ReplyTo => "Reply-To",
            Header::Require => "Require",
            Header::RetryAfter => "Retry-After",
            Header::Route => "Route",
            Header::Server => "Server",
            Header::Subject => "Subject",
            Header::Supported => "Supported",
            Header::Timestamp => "Timestamp",
            Header::To => "To",
            Header::Unsupported => "Unsupported",
            Header::UserAgent => "User-Agent",
            Header::Via => "Via",
            Header::Warning => "Warning",
            Header::WWWAuthenticate => "WWW-Authenticate",
        }
    }

    /// The name to write for this header: with `compact`, the one-letter
    /// form where the header has one; otherwise the full name.
    pub fn canonical_string(&self, compact: bool) -> (r: String)
        ensures
            r@ == canonical_name(*self, compact),
    {
        if compact {
            match self {
                Header::CallID => "i".to_owned(),
                Header::Contact => "m".to_owned(),
                Header::ContentEncoding => "e".to_owned(),
                Header::ContentLength => "l".to_owned(),
                Header::ContentType => "c".to_owned(),
                Header::From => "f".to_owned(),
                Header::Subject => "s".to_owned(),
                Header::Supported => "k".to_owned(),
                Header::To => "t".to_owned(),
                Header::Via => "v".to_owned(),
                _ => self.name().to_owned(),
            }
        } else {
            self.name().to_owned()
        }
    }

    /// The header that an already lowercased name denotes.
    pub fn from_lowercase(lower: &str) -> (r: Option<Header>)
        ensures
            r == header_from_lowercase(lower@),
    {
        let v = chars_of(lower);
        if chars_equal(&v, "accept") {
            Some(Header::Accept)
        } else if chars_equal(&v, "accept-encoding") {
            Some(Header::AcceptEncoding)
        } else if chars_equal(&v, "accept-language") {
            Some(Header::AcceptLanguage)
        } else if chars_equal(&v, "alert-info") {
            Some(Header::AlertInfo)
        } else if chars_equal(&v, "allow") {
            Some(Header::Allow)
        } else if chars_equal(&v, "authentication-info") {
            Some(Header::AuthenticationInfo)
        } else if chars_equal(&v, "authorization") {
            Some(Header::Authorization)
        } else if chars_equal(&v, "call-id") || chars_equal(&v, "i") {
            Some(Header::CallID)
        } else if chars_equal(&v, "call-info") {
            Some(Header::CallInfo)
        } else if chars_equal(&v, "contact") || chars_equal(&v, "m") {
            Some(Header::Contact)
        } else if chars_equal(&v, "content-disposition") {
            Some(Header::ContentDisposition)
        } else if chars_equal(&v, "content-encoding") || chars_equal(&v, "e") {
            Some(Header::ContentEncoding)
        } else if chars_equal(&v, "content-language") {
            Some(Header::ContentLanguage)
        } else if chars_equal(&v, "content-length") || chars_equal(&v, "l") {
            Some(Header::ContentLength)
        } else if chars_equal(&v, "content-type") || chars_equal(&v, "c") {
            Some(Header::ContentType)
        } else if chars_equal(&v, "cseq") {
            Some(Header::CSeq)
        } else if chars_equal(&v, "date") {
            Some(Header::Date)
        } else if chars_equal(&v, "error-info") {
            Some(Header::ErrorInfo)
        } else if chars_equal(&v, "expires") {
            Some(Header::Expires)
        } else if chars_equal(&v, "from") || chars_equal(&v, "f") {
            Some(Header::From)
        } else if chars_equal(&v, "in-reply-to") {
            Some(Header::InReplyTo)
        } else if chars_equal(&v, "max-forwards") {
            Some(Header::MaxForwards)
        } else if chars_equal(&v, "mime-version") {
            Some(Header::MIMEVersion)
        } else if chars_equal(&v, "min-expires") {
            Some(Header::MinExpires)
        } else if chars_equal(&v, "organization") {
            Some(Header::Organization)
        } else if chars_equal(&v, "priority") {
            Some(Header::Priority)
        } else if chars_equal(&v, "proxy-authenticate") {
            Some(Header::ProxyAuthenticate)
        } else if chars_equal(&v, "proxy-authorization") {
            Some(Header::ProxyAuthorization)
        } else if chars_equal(&v, "proxy-require") {
            Some(Header::ProxyRequire)
        } else if chars_equal(&v, "record-route") {
            Some(Header::RecordRoute)
        } else if chars_equal(&v, "reply-to") {
            Some(Header::ReplyTo)
        } else if chars_equal(&v, "require") {
            Some(Header::Require)
        } else if chars_equal(&v, "retry-after") {
            Some(Header::RetryAfter)
        } else if chars_equal(&v, "route") {
            Some(Header::Route)
        } else if chars_equal(&v, "server") {
            Some(Header::Server)
        } else if chars_equal(&v, "subject") || chars_equal(&v, "s") {
            Some(Header::Subject)
        } else if chars_equal(&v, "supported") {
            Some(Header::Supported)
        } else if chars_equal(&v, "timestamp") {
            Some(Header::Timestamp)
        } else if chars_equal(&v, "to") || chars_equal(&v, "t") {
            Some(Header::To)
        } else if chars_equal(&v, "unsupported") {
            Some(Header::Unsupported)
        } else if chars_equal(&v, "user-agent") {
            Some(Header::UserAgent)
        } else if chars_equal(&v, "via") || chars_equal(&v, "k") {
            Some(Header::Via)
        } else if chars_equal(&v, "warning") {
            Some(Header::Warning)
        } else if chars_equal(&v, "www-authenticate") {
            Some(Header::WWWAuthenticate)
        } else {
            None
        }
    }

    /// The header that `string` names, in any letter case.
    pub fn from_string(string: &str) -> (r: Result<Header, SipError>)
        ensures
            header_from_text(string@) matches Some(h) ==> r == Ok::<Header, SipError>(h),
            header_from_text(string@) is None ==> (r matches Err(
                SipError::BadHeader(s),
            ) && s@ == string@),
    {
        let lower = to_lowercase(string);
        match Header::from_lowercase(lower.as_str()) {
            Some(h) => Ok(h),
            None => Err(SipError::BadHeader(string.to_owned())),
        }
    }

    /// The value this server sends for the header: the current time for
    /// `Date`, its own name and version for `Server`, the methods it handles
    /// for `Allow`, and an empty value for every other header.
    pub fn generate(self) -> (r: String)
        ensures
            self != Header::Date ==> r@ == generated_value(self),
            self == Header::Date ==> is_rfc2822_utc(r@),
    {
        match self {
            Header::Date => current_date_rfc2822(),
            Header::Server => "Telex PBX v0.1.0".to_owned(),
            Header::Allow => "REGISTER, INVITE, ACK, CANCEL, OPTIONS, BYE".to_owned(),
            _ => String::new(),
        }
    }

    /// Checks a value for this header: `Expires`, `Content-Length` and
    /// `Max-Forwards` need a value that reads as an `i32`; every other header
    /// takes any value.
    pub fn validate(&self, value: &String) -> (r: Result<(), SipError>)
        ensures
            r is Ok <==> (!is_integer_header(*self) || parse_i32_spec(value@) is Some),
            r matches Err(e) ==> (e matches SipError::NotAnInteger(s) && s@ == value@),
    {
        match self {
            Header::Expires | Header::ContentLength | Header::MaxForwards => validate_integer(value),
            _ => Ok(()),
        }
    }
}

/// Accepts `value` when it reads as an `i32`.
fn validate_integer(value: &String) -> (r: Result<(), SipError>)
    ensures
        r is Ok <==> parse_i32_spec(value@) is Some,
        r matches Err(e) ==> (e matches SipError::NotAnInteger(s) && s@ == value@),
{
    match parse_i32(value.as_str()) {
        Some(_) => Ok(()),
        None => Err(SipError::NotAnInteger(value.clone())),
    }
}

/// Every header has a code, and the code gives the header back.
pub proof fn lemma_header_code_roundtrip(h: Header)
    ensures
        header_from_code(header_code(h)) == Some(h),
        header_code(h) < HEADER_COUNT,
{
}

/// A code below [`HEADER_COUNT`] belongs to a header, and no other code does.
pub proof fn lemma_header_from_code(n: u8)
    ensures
        header_from_code(n) is Some <==> n < HEADER_COUNT,
        header_from_code(n) matches Some(h) ==> header_code(h) == n,
{
}

/// Every header's written name, lowercased, reads back as that header; the
/// one exception is `AuthenticationInfo`, which is written without the
/// hyphen of `authentication-info`.
pub proof fn lemma_full_name_reads_back(h: Header)
    requires
        h != Header::AuthenticationInfo,
    ensures
        header_from_lowercase(ascii_lowercase(canonical_name(h, false))) == Some(h),
{
    reveal_strlit("Accept");
    reveal_strlit("Accept-Encoding");
    reveal_strlit("Accept-Language");
    reveal_strlit("Alert-Info");
    reveal_strlit("Allow");
    reveal_strlit("AuthenticationInfo");
    reveal_strlit("Authorization");
    reveal_strlit("CSeq");
    reveal_strlit("Call-ID");
    reveal_strlit("Call-Info");
    reveal_strlit("Contact");
    reveal_strlit("Content-Disposition");
    reveal_strlit("Content-Encoding");
    reveal_strlit("Content-Language");
    reveal_strlit("Content-Length");
    reveal_strlit("Content-Type");
    reveal_strlit("Date");
    reveal_strlit("Error-Info");
    reveal_strlit("Expires");
    reveal_strlit("From");
    reveal_strlit("In-Reply-To");
    reveal_strlit("MIME-Version");
    reveal_strlit("Max-Forwards");
    reveal_strlit("Min-Expires");
    reveal_strlit("Organization");
    reveal_strlit("Priority");
    reveal_strlit("Proxy-Authenticate");
    reveal_strlit("Proxy-Authorization");
    reveal_strlit("Proxy-Require");
    reveal_strlit("Record-Route");
    reveal_strlit("Reply-To");
    reveal_strlit("Require");
    reveal_strlit("Retry-After");
    reveal_strlit("Route");
    reveal_strlit("Server");
    reveal_strlit("Subject");
    reveal_strlit("Supported");
    reveal_strlit("Timestamp");
    reveal_strlit("To");
    reveal_strlit("Unsupported");
    reveal_strlit("User-Agent");
    reveal_strlit("Via");
    reveal_strlit("WWW-Authenticate");
    reveal_strlit("Warning");
    reveal_strlit("accept");
    reveal_strlit("accept-encoding");
    reveal_strlit("accept-language");
    reveal_strlit("alert-info");
    reveal_strlit("allow");
    reveal_strlit("authentication-info");
    reveal_strlit("authorization");
    reveal_strlit("c");
    reveal_strlit("call-id");
    reveal_strlit("call-info");
    reveal_strlit("contact");
    reveal_strlit("content-disposition");
    reveal_strlit("content-encoding");
    reveal_strlit("content-language");
    reveal_strlit("content-length");
    reveal_strlit("content-type");
    reveal_strlit("cseq");
    reveal_strlit("date");
    reveal_strlit("e");
    reveal_strlit("error-info");
    reveal_strlit("expires");
    reveal_strlit("f");
    reveal_strlit("from");
    reveal_strlit("i");
    reveal_strlit("in-reply-to");
    reveal_strlit("k");
    reveal_strlit("l");
    reveal_strlit("m");
    reveal_strlit("max-forwards");
    reveal_strlit("mime-version");
    reveal_strlit("min-expires");
    reveal_strlit("organization");
    reveal_strlit("priority");
    reveal_strlit("proxy-authenticate");
    reveal_strlit("proxy-authorization");
    reveal_strlit("proxy-require");
    reveal_strlit("record-route");
    reveal_strlit("reply-to");
    reveal_strlit("require");
    reveal_strlit("retry-after");
    reveal_strlit("route");
    reveal_strlit("s");
    reveal_strlit("server");
    reveal_strlit("subject");
    reveal_strlit("supported");
    reveal_strlit("t");
    reveal_strlit("timestamp");
    reveal_strlit("to");
    reveal_strlit("unsupported");
    reveal_strlit("user-agent");
    reveal_strlit("v");
    reveal_strlit("via");
    reveal_strlit("warning");
    reveal_strlit("www-authenticate");
    match h {
        Header::Accept => {
            assert(ascii_lowercase(header_name(h)) =~= "accept"@);
        },
        Header::AcceptEncoding => {
            assert(ascii_lowercase(header_name(h)) =~= "accept-encoding"@);
        },
        Header::AcceptLanguage => {
            assert(ascii_lowercase(header_name(h)) =~= "accept-language"@);
            assert("accept-language"@[7] != "accept-encoding"@[7]);
        },
        Header::AlertInfo => {
            assert(ascii_lowercase(header_name(h)) =~= "alert-info"@);
        },
        Header::Allow => {
            assert(ascii_lowercase(header_name(h)) =~= "allow"@);
        },
        Header::AuthenticationInfo => {},
        Header::Authorization => {
            assert(ascii_lowercase(header_name(h)) =~= "authorization"@);
        },
        Header::CallID => {
            assert(ascii_lowercase(header_name(h)) =~= "call-id"@);
        },
        Header::CallInfo => {
            assert(ascii_lowercase(header_name(h)) =~= "call-info"@);
        },
        Header::Contact => {
            assert(ascii_lowercase(header_name(h)) =~= "contact"@);
            assert("contact"@[1] != "call-id"@[1]);
        },
        Header::ContentDisposition => {
            assert(ascii_lowercase(header_name(h)) =~= "content-disposition"@);
            assert("content-disposition"@[0] != "authentication-info"@[0]);
        },
        Header::ContentEncoding => {
            assert(ascii_lowercase(header_name(h)) =~= "content-encoding"@);
        },
        Header::ContentLanguage => {
            assert(ascii_lowercase(header_name(h)) =~= "content-language"@);
            assert("content-language"@[8] != "content-encoding"@[8]);
        },
        Header::ContentLength => {
            assert(ascii_lowercase(header_name(h)) =~= "content-length"@);
        },
        Header::ContentType => {
            assert(ascii_lowercase(header_name(h)) =~= "content-type"@);
        },
        Header::CSeq => {
            assert(ascii_lowercase(header_name(h)) =~= "cseq"@);
        },
        Header::Date => {
            assert(ascii_lowercase(header_name(h)) =~= "date"@);
            assert("date"@[0] != "cseq"@[0]);
        },
        Header::ErrorInfo => {
            assert(ascii_lowercase(header_name(h)) =~= "error-info"@);
            assert("error-info"@[0] != "alert-info"@[0]);
        },
        Header::Expires => {
            assert(ascii_lowercase(header_name(h)) =~= "expires"@);
            assert("expires"@[0] != "call-id"@[0]);
            assert("expires"@[0] != "contact"@[0]);
        },
        Header::From => {
            assert(ascii_lowercase(header_name(h)) =~= "from"@);
            assert("from"@[0] != "cseq"@[0]);
            assert("from"@[0] != "date"@[0]);
        },
        Header::InReplyTo => {
            assert(ascii_lowercase(header_name(h)) =~= "in-reply-to"@);
        },
        Header::MaxForwards => {
            assert(ascii_lowercase(header_name(h)) =~= "max-forwards"@);
            assert("max-forwards"@[0] != "content-type"@[0]);
        },
        Header::MIMEVersion => {
            assert(ascii_lowercase(header_name(h)) =~= "mime-version"@);
            assert("mime-version"@[0] != "content-type"@[0]);
            assert("mime-version"@[1] != "max-forwards"@[1]);
        },
        Header::MinExpires => {
            assert(ascii_lowercase(header_name(h)) =~= "min-expires"@);
            assert("min-expires"@[0] != "in-reply-to"@[0]);
        },
        Header::Organization => {
            assert(ascii_lowercase(header_name(h)) =~= "organization"@);
            assert("organization"@[0] != "content-type"@[0]);
            assert("organization"@[0] != "max-forwards"@[0]);
            assert("organization"@[0] != "mime-version"@[0]);
        },
        Header::Priority => {
            assert(ascii_lowercase(header_name(h)) =~= "priority"@);
        },
        Header::ProxyAuthenticate => {
            assert(ascii_lowercase(header_name(h)) =~= "proxy-authenticate"@);
        },
        Header::ProxyAuthorization => {
            assert(ascii_lowercase(header_name(h)) =~= "proxy-authorization"@);
            assert("proxy-authorization"@[0] != "authentication-info"@[0]);
            assert("proxy-authorization"@[0] != "content-disposition"@[0]);
        },
        Header::ProxyRequire => {
            assert(ascii_lowercase(header_name(h)) =~= "proxy-require"@);
            assert("proxy-require"@[0] != "authorization"@[0]);
        },
        Header::RecordRoute => {
            assert(ascii_lowercase(header_name(h)) =~= "record-route"@);
            assert("record-route"@[0] != "content-type"@[0]);
            assert("record-route"@[0] != "max-forwards"@[0]);
            assert("record-route"@[0] != "mime-version"@[0]);
            assert("record-route"@[0] != "organization"@[0]);
        },
        Header::ReplyTo => {
            assert(ascii_lowercase(header_name(h)) =~= "reply-to"@);
            assert("reply-to"@[0] != "priority"@[0]);
        },
        Header::Require => {
            assert(ascii_lowercase(header_name(h)) =~= "require"@);
            assert("require"@[0] != "call-id"@[0]);
            assert("require"@[0] != "contact"@[0]);
            assert("require"@[0] != "expires"@[0]);
        },
        Header::RetryAfter => {
            assert(ascii_lowercase(header_name(h)) =~= "retry-after"@);
            assert("retry-after"@[0] != "in-reply-to"@[0]);
            assert("retry-after"@[0] != "min-expires"@[0]);
        },
        Header::Route => {
            assert(ascii_lowercase(header_name(h)) =~= "route"@);
            assert("route"@[0] != "allow"@[0]);
        },
        Header::Server => {
            assert(ascii_lowercase(header_name(h)) =~= "server"@);
            assert("server"@[0] != "accept"@[0]);
        },
        Header::Subject => {
            assert(ascii_lowercase(header_name(h)) =~= "subject"@);
            assert("subject"@[0] != "call-id"@[0]);
            assert("subject"@[0] != "contact"@[0]);
            assert("subject"@[0] != "expires"@[0]);
            assert("subject"@[0] != "require"@[0]);
        },
        Header::Supported => {
            assert(ascii_lowercase(header_name(h)) =~= "supported"@);
            assert("supported"@[0] != "call-info"@[0]);
        },
        Header::Timestamp => {
            assert(ascii_lowercase(header_name(h)) =~= "timestamp"@);
            assert("timestamp"@[0] != "call-info"@[0]);
            assert("timestamp"@[0] != "supported"@[0]);
        },
        Header::To => {
            assert(ascii_lowercase(header_name(h)) =~= "to"@);
        },
        Header::Unsupported => {
            assert(ascii_lowercase(header_name(h)) =~= "unsupported"@);
            assert("unsupported"@[0] != "in-reply-to"@[0]);
            assert("unsupported"@[0] != "min-expires"@[0]);
            assert("unsupported"@[0] != "retry-after"@[0]);
        },
        Header::UserAgent => {
            assert(ascii_lowercase(header_name(h)) =~= "user-agent"@);
            assert("user-agent"@[0] != "alert-info"@[0]);
            assert("user-agent"@[0] != "error-info"@[0]);
        },
        Header::Via => {
            assert(ascii_lowercase(header_name(h)) =~= "via"@);
        },
        Header::Warning => {
            assert(ascii_lowercase(header_name(h)) =~= "warning"@);
            assert("warning"@[0] != "call-id"@[0]);
            assert("warning"@[0] != "contact"@[0]);
            assert("warning"@[0] != "expires"@[0]);
            assert("warning"@[0] != "require"@[0]);
            assert("warning"@[0] != "subject"@[0]);
        },
        Header::WWWAuthenticate => {
            assert(ascii_lowercase(header_name(h)) =~= "www-authenticate"@);
            assert("www-authenticate"@[0] != "content-encoding"@[0]);
            assert("www-authenticate"@[0] != "content-language"@[0]);
        },
    }
}

/// Every header's compact name (the full name where there is none),
/// lowercased, reads back as that header, except three: `AuthenticationInfo`
/// (see [`lemma_full_name_reads_back`]), `Supported`, whose compact form `k`
/// reads back as `Via`, and `Via`, whose compact form `v` is not read at all.
pub proof fn lemma_compact_name_reads_back(h: Header)
    requires
        h != Header::AuthenticationInfo,
        h != Header::Supported,
        h != Header::Via,
    ensures
        header_from_lowercase(ascii_lowercase(canonical_name(h, true))) == Some(h),
{
    reveal_strlit("accept");
    reveal_strlit("accept-encoding");
    reveal_strlit("accept-language");
    reveal_strlit("alert-info");
    reveal_strlit("allow");
    reveal_strlit("authentication-info");
    reveal_strlit("authorization");
    reveal_strlit("c");
    reveal_strlit("call-id");
    reveal_strlit("call-info");
    reveal_strlit("contact");
    reveal_strlit("content-disposition");
    reveal_strlit("content-encoding");
    reveal_strlit("content-language");
    reveal_strlit("content-length");
    reveal_strlit("content-type");
    reveal_strlit("cseq");
    reveal_strlit("date");
    reveal_strlit("e");
    reveal_strlit("error-info");
    reveal_strlit("expires");
    reveal_strlit("f");
    reveal_strlit("from");
    reveal_strlit("i");
    reveal_strlit("in-reply-to");
    reveal_strlit("k");
    reveal_strlit("l");
    reveal_strlit("m");
    reveal_strlit("max-forwards");
    reveal_strlit("mime-version");
    reveal_strlit("min-expires");
    reveal_strlit("organization");
    reveal_strlit("priority");
    reveal_strlit("proxy-authenticate");
    reveal_strlit("proxy-authorization");
    reveal_strlit("proxy-require");
    reveal_strlit("record-route");
    reveal_strlit("reply-to");
    reveal_strlit("require");
    reveal_strlit("retry-after");
    reveal_strlit("route");
    reveal_strlit("s");
    reveal_strlit("server");
    reveal_strlit("subject");
    reveal_strlit("supported");
    reveal_strlit("t");
    reveal_strlit("timestamp");
    reveal_strlit("to");
    reveal_strlit("unsupported");
    reveal_strlit("user-agent");
    reveal_strlit("v");
    reveal_strlit("via");
    reveal_strlit("warning");
    reveal_strlit("www-authenticate");
    match h {
        Header::CallID => {
            assert(ascii_lowercase(canonical_name(h, true)) =~= "i"@);
        },
        Header::Contact => {
            assert(ascii_lowercase(canonical_name(h, true)) =~= "m"@);
            assert("m"@[0] != "i"@[0]);
        },
        Header::ContentEncoding => {
            assert(ascii_lowercase(canonical_name(h, true)) =~= "e"@);
            assert("e"@[0] != "i"@[0]);
            assert("e"@[0] != "m"@[0]);
        },
        Header::ContentLength => {
            assert(ascii_lowercase(canonical_name(h, true)) =~= "l"@);
            assert("l"@[0] != "i"@[0]);
            assert("l"@[0] != "m"@[0]);
            assert("l"@[0] != "e"@[0]);
        },
        Header::ContentType => {
            assert(ascii_lowercase(canonical_name(h, true)) =~= "c"@);
            assert("c"@[0] != "i"@[0]);
            assert("c"@[0] != "m"@[0]);
            assert("c"@[0] != "e"@[0]);
            assert("c"@[0] != "l"@[0]);
        },
        Header::From => {
            assert(ascii_lowercase(canonical_name(h, true)) =~= "f"@);
            assert("f"@[0] != "i"@[0]);
            assert("f"@[0] != "m"@[0]);
            assert("f"@[0] != "e"@[0]);
            assert("f"@[0] != "l"@[0]);
            assert("f"@[0] != "c"@[0]);
        },
        Header::Subject => {
            assert(ascii_lowercase(canonical_name(h, true)) =~= "s"@);
            assert("s"@[0] != "i"@[0]);
            assert("s"@[0] != "m"@[0]);
            assert("s"@[0] != "e"@[0]);
            assert("s"@[0] != "l"@[0]);
            assert("s"@[0] != "c"@[0]);
            assert("s"@[0] != "f"@[0]);
        },
        Header::To => {
            assert(ascii_lowercase(canonical_name(h, true)) =~= "t"@);
            assert("t"@[0] != "i"@[0]);
            assert("t"@[0] != "m"@[0]);
            assert("t"@[0] != "e"@[0]);
            assert("t"@[0] != "l"@[0]);
            assert("t"@[0] != "c"@[0]);
            assert("t"@[0] != "f"@[0]);
            assert("t"@[0] != "s"@[0]);
        },
        _ => {
            lemma_full_name_reads_back(h);
        },
    }
}

/// Every header name is a non-empty run of ASCII letters and hyphens.
pub proof fn lemma_header_name_letters(h: Header)
    ensures
        header_name(h).len() >= 1,
        forall|i: int| 0 <= i < header_name(h).len() ==> {
            let c = #[trigger] header_name(h)[i];
            ('a' <= c <= 'z') || ('A' <= c <= 'Z') || c == '-'
        },
{
    reveal_strlit("Accept");
    reveal_strlit("Accept-Encoding");
    reveal_strlit("Accept-Language");
    reveal_strlit("Alert-Info");
    reveal_strlit("Allow");
    reveal_strlit("AuthenticationInfo");
    reveal_strlit("Authorization");
    reveal_strlit("Call-ID");
    reveal_strlit("Call-Info");
    reveal_strlit("Contact");
    reveal_strlit("Content-Disposition");
    reveal_strlit("Content-Encoding");
    reveal_strlit("Content-Language");
    reveal_strlit("Content-Length");
    reveal_strlit("Content-Type");
    reveal_strlit("CSeq");
    reveal_strlit("Date");
    reveal_strlit("Error-Info");
    reveal_strlit("Expires");
    reveal_strlit("From");
    reveal_strlit("In-Reply-To");
    reveal_strlit("Max-Forwards");
    reveal_strlit("MIME-Version");
    reveal_strlit("Min-Expires");
    reveal_strlit("Organization");
    reveal_strlit("Priority");
    reveal_strlit("Proxy-Authenticate");
    reveal_strlit("Proxy-Authorization");
    reveal_strlit("Proxy-Require");
    reveal_strlit("Record-Route");
    reveal_strlit("Reply-To");
    reveal_strlit("Require");
    reveal_strlit("Retry-After");
    reveal_strlit("Route");
    reveal_strlit("Server");
    reveal_strlit("Subject");
    reveal_strlit("Supported");
    reveal_strlit("Timestamp");
    reveal_strlit("To");
    reveal_strlit("Unsupported");
    reveal_strlit("User-Agent");
    reveal_strlit("Via");
    reveal_strlit("Warning");
    reveal_strlit("WWW-Authenticate");
}

/// Header names are runs of ASCII letters joined by single hyphens: at least
/// two characters, starting and ending with a letter, with no two hyphens in
/// a row.
pub open spec fn is_hyphenated_name(s: Seq<char>) -> bool {
    &&& s.len() >= 2
    &&& forall|i: int| 0 <= i < s.len() ==> {
        let c = #[trigger] s[i];
        ('a' <= c <= 'z') || ('A' <= c <= 'Z') || c == '-'
    }
    &&& s[0] != '-'
    &&& s.last() != '-'
    &&& forall|i: int| 0 <= i < s.len() - 1 ==> !(#[trigger] s[i] == '-' && s[i + 1] == '-')
}

/// Every header name is a run of letters joined by single hyphens.
pub proof fn lemma_header_name_hyphenated(h: Header)
    ensures
        is_hyphenated_name(header_name(h)),
{
    match h {
        Header::Accept => {
            reveal_strlit("Accept");
        },
        Header::AcceptEncoding => {
            reveal_strlit("Accept-Encoding");
        },
        Header::AcceptLanguage => {
            reveal_strlit("Accept-Language");
        },
        Header::AlertInfo => {
            reveal_strlit("Alert-Info");
        },
        Header::Allow => {
            reveal_strlit("Allow");
        },
        Header::AuthenticationInfo => {
            reveal_strlit("AuthenticationInfo");
        },
        Header::Authorization => {
            reveal_strlit("Authorization");
        },
        Header::CallID => {
            reveal_strlit("Call-ID");
        },
        Header::CallInfo => {
            reveal_strlit("Call-Info");
        },
        Header::Contact => {
            reveal_strlit("Contact");
        },
        Header::ContentDisposition => {
            reveal_strlit("Content-Disposition");
        },
        Header::ContentEncoding => {
            reveal_strlit("Content-Encoding");
        },
        Header::ContentLanguage => {
            reveal_strlit("Content-Language");
        },
        Header::ContentLength => {
            reveal_strlit("Content-Length");
        },
        Header::ContentType => {
            reveal_strlit("Content-Type");
        },
        Header::CSeq => {
            reveal_strlit("CSeq");
        },
        Header::Date => {
            reveal_strlit("Date");
        },
        Header::ErrorInfo => {
            reveal_strlit("Error-Info");
        },
        Header::Expires => {
            reveal_strlit("Expires");
        },
        Header::From => {
            reveal_strlit("From");
        },
        Header::InReplyTo => {
            reveal_strlit("In-Reply-To");
        },
        Header::MaxForwards => {
            reveal_strlit("Max-Forwards");
        },
        Header::MIMEVersion => {
            reveal_strlit("MIME-Version");
        },
        Header::MinExpires => {
            reveal_strlit("Min-Expires");
        },
        Header::Organization => {
            reveal_strlit("Organization");
        },
        Header::Priority => {
            reveal_strlit("Priority");
        },
        Header::ProxyAuthenticate => {
            reveal_strlit("Proxy-Authenticate");
        },
        Header::ProxyAuthorization => {
            reveal_strlit("Proxy-Authorization");
        },
        Header::ProxyRequire => {
            reveal_strlit("Proxy-Require");
        },
        Header::RecordRoute => {
            reveal_strlit("Record-Route");
        },
        Header::ReplyTo => {
            reveal_strlit("Reply-To");
        },
        Header::Require => {
            reveal_strlit("Require");
        },
        Header::RetryAfter => {
            reveal_strlit("Retry-After");
        },
        Header::Route => {
            reveal_strlit("Route");
        },
        Header::Server => {
            reveal_strlit("Server");
        },
        Header::Subject => {
            reveal_strlit("Subject");
        },
        Header::Supported => {
            reveal_strlit("Supported");
        },
        Header::Timestamp => {
            reveal_strlit("Timestamp");
        },
        Header::To => {
            reveal_strlit("To");
        },
        Header::Unsupported => {
            reveal_strlit("Unsupported");
        },
        Header::UserAgent => {
            reveal_strlit("User-Agent");
        },
        Header::Via => {
            reveal_strlit("Via");
        },
        Header::Warning => {
            reveal_strlit("Warning");
        },
        Header::WWWAuthenticate => {
            reveal_strlit("WWW-Authenticate");
        },
    }
}

proof fn lemma_names_differ_from_special(h: Header)
    ensures
        h != Header::AuthenticationInfo ==> header_name(h) != header_name(Header::AuthenticationInfo),
        h != Header::AuthenticationInfo ==> canonical_name(h, true) != canonical_name(
            Header::AuthenticationInfo,
            true,
        ),
        h != Header::Supported ==> canonical_name(h, true) != canonical_name(Header::Supported, true),
        h != Header::Via ==> canonical_name(h, true) != canonical_name(Header::Via, true),
{
    reveal_strlit("AuthenticationInfo");
    reveal_strlit("k");
    reveal_strlit("v");
    match h {
        Header::Accept => {
            reveal_strlit("Accept");
            assert("Accept"@.len() != "AuthenticationInfo"@.len());
            assert("Accept"@.len() != "AuthenticationInfo"@.len());
            assert("Accept"@.len() != "k"@.len());
            assert("Accept"@.len() != "v"@.len());
        },
        Header::AcceptEncoding => {
            reveal_strlit("Accept-Encoding");
            assert("Accept-Encoding"@.len() != "AuthenticationInfo"@.len());
            assert("Accept-Encoding"@.len() != "AuthenticationInfo"@.len());
            assert("Accept-Encoding"@.len() != "k"@.len());
            assert("Accept-Encoding"@.len() != "v"@.len());
        },
        Header::AcceptLanguage => {
            reveal_strlit("Accept-Language");
            assert("Accept-Language"@.len() != "AuthenticationInfo"@.len());
            assert("Accept-Language"@.len() != "AuthenticationInfo"@.len());
            assert("Accept-Language"@.len() != "k"@.len());
            assert("Accept-Language"@.len() != "v"@.len());
        },
        Header::AlertInfo => {
            reveal_strlit("Alert-Info");
            assert("Alert-Info"@.len() != "AuthenticationInfo"@.len());
            assert("Alert-Info"@.len() != "AuthenticationInfo"@.len());
            assert("Alert-Info"@.len() != "k"@.len());
            assert("Alert-Info"@.len() != "v"@.len());
        },
        Header::Allow => {
            reveal_strlit("Allow");
            assert("Allow"@.len() != "AuthenticationInfo"@.len());
            assert("Allow"@.len() != "AuthenticationInfo"@.len());
            assert("Allow"@.len() != "k"@.len());
            assert("Allow"@.len() != "v"@.len());
        },
        Header::AuthenticationInfo => {
            reveal_strlit("AuthenticationInfo");
            assert("AuthenticationInfo"@.len() != "k"@.len());
            assert("AuthenticationInfo"@.len() != "v"@.len());
        },
        Header::Authorization => {
            reveal_strlit("Authorization");
            assert("Authorization"@.len() != "AuthenticationInfo"@.len());
            assert("Authorization"@.len() != "AuthenticationInfo"@.len());
            assert("Authorization"@.len() != "k"@.len());
            assert("Authorization"@.len() != "v"@.len());
        },
        Header::CallID => {
            reveal_strlit("Call-ID");
            reveal_strlit("i");
            assert("Call-ID"@.len() != "AuthenticationInfo"@.len());
            assert("i"@.len() != "AuthenticationInfo"@.len());
            assert("i"@[0] != "k"@[0]);
            assert("i"@[0] != "v"@[0]);
        },
        Header::CallInfo => {
            reveal_strlit("Call-Info");
            assert("Call-Info"@.len() != "AuthenticationInfo"@.len());
            assert("Call-Info"@.len() != "AuthenticationInfo"@.len());
            assert("Call-Info"@.len() != "k"@.len());
            assert("Call-Info"@.len() != "v"@.len());
        },
        Header::Contact => {
            reveal_strlit("Contact");
            reveal_strlit("m");
            assert("Contact"@.len() != "AuthenticationInfo"@.len());
            assert("m"@.len() != "AuthenticationInfo"@.len());
            assert("m"@[0] != "k"@[0]);
            assert("m"@[0] != "v"@[0]);
        },
        Header::ContentDisposition => {
            reveal_strlit("Content-Disposition");
            assert("Content-Disposition"@.len() != "AuthenticationInfo"@.len());
            assert("Content-Disposition"@.len() != "AuthenticationInfo"@.len());
            assert("Content-Disposition"@.len() != "k"@.len());
            assert("Content-Disposition"@.len() != "v"@.len());
        },
        Header::ContentEncoding => {
            reveal_strlit("Content-Encoding");
            reveal_strlit("e");
            assert("Content-Encoding"@.len() != "AuthenticationInfo"@.len());
            assert("e"@.len() != "AuthenticationInfo"@.len());
            assert("e"@[0] != "k"@[0]);
            assert("e"@[0] != "v"@[0]);
        },
        Header::ContentLanguage => {
            reveal_strlit("Content-Language");
            assert("Content-Language"@.len() != "AuthenticationInfo"@.len());
            assert("Content-Language"@.len() != "AuthenticationInfo"@.len());
            assert("Content-Language"@.len() != "k"@.len());
            assert("Content-Language"@.len() != "v"@.len());
        },
        Header::ContentLength => {
            reveal_strlit("Content-Length");
            reveal_strlit("l");
            assert("Content-Length"@.len() != "AuthenticationInfo"@.len());
            assert("l"@.len() != "AuthenticationInfo"@.len());
            assert("l"@[0] != "k"@[0]);
            assert("l"@[0] != "v"@[0]);
        },
        Header::ContentType => {
            reveal_strlit("Content-Type");
            reveal_strlit("c");
            assert("Content-Type"@.len() != "AuthenticationInfo"@.len());
            assert("c"@.len() != "AuthenticationInfo"@.len());
            assert("c"@[0] != "k"@[0]);
            assert("c"@[0] != "v"@[0]);
        },
        Header::CSeq => {
            reveal_strlit("CSeq");
            assert("CSeq"@.len() != "AuthenticationInfo"@.len());
            assert("CSeq"@.len() != "AuthenticationInfo"@.len());
            assert("CSeq"@.len() != "k"@.len());
            assert("CSeq"@.len() != "v"@.len());
        },
        Header::Date => {
            reveal_strlit("Date");
            assert("Date"@.len() != "AuthenticationInfo"@.len());
            assert("Date"@.len() != "AuthenticationInfo"@.len());
            assert("Date"@.len() != "k"@.len());
            assert("Date"@.len() != "v"@.len());
        },
        Header::ErrorInfo => {
            reveal_strlit("Error-Info");
            assert("Error-Info"@.len() != "AuthenticationInfo"@.len());
            assert("Error-Info"@.len() != "AuthenticationInfo"@.len());
            assert("Error-Info"@.len() != "k"@.len());
            assert("Error-Info"@.len() != "v"@.len());
        },
        Header::Expires => {
            reveal_strlit("Expires");
            assert("Expires"@.len() != "AuthenticationInfo"@.len());
            assert("Expires"@.len() != "AuthenticationInfo"@.len());
            assert("Expires"@.len() != "k"@.len());
            assert("Expires"@.len() != "v"@.len());
        },
        Header::From => {
            reveal_strlit("From");
            reveal_strlit("f");
            assert("From"@.len() != "AuthenticationInfo"@.len());
            assert("f"@.len() != "AuthenticationInfo"@.len());
            assert("f"@[0] != "k"@[0]);
            assert("f"@[0] != "v"@[0]);
        },
        Header::InReplyTo => {
            reveal_strlit("In-Reply-To");
            assert("In-Reply-To"@.len() != "AuthenticationInfo"@.len());
            assert("In-Reply-To"@.len() != "AuthenticationInfo"@.len());
            assert("In-Reply-To"@.len() != "k"@.len());
            assert("In-Reply-To"@.len() != "v"@.len());
        },
        Header::MaxForwards => {
            reveal_strlit("Max-Forwards");
            assert("Max-Forwards"@.len() != "AuthenticationInfo"@.len());
            assert("Max-Forwards"@.len() != "AuthenticationInfo"@.len());
            assert("Max-Forwards"@.len() != "k"@.len());
            assert("Max-Forwards"@.len() != "v"@.len());
        },
        Header::MIMEVersion => {
            reveal_strlit("MIME-Version");
            assert("MIME-Version"@.len() != "AuthenticationInfo"@.len());
            assert("MIME-Version"@.len() != "AuthenticationInfo"@.len());
            assert("MIME-Version"@.len() != "k"@.len());
            assert("MIME-Version"@.len() != "v"@.len());
        },
        Header::MinExpires => {
            reveal_strlit("Min-Expires");
            assert("Min-Expires"@.len() != "AuthenticationInfo"@.len());
            assert("Min-Expires"@.len() != "AuthenticationInfo"@.len());
            assert("Min-Expires"@.len() != "k"@.len());
            assert("Min-Expires"@.len() != "v"@.len());
        },
        Header::Organization => {
            reveal_strlit("Organization");
            assert("Organization"@.len() != "AuthenticationInfo"@.len());
            assert("Organization"@.len() != "AuthenticationInfo"@.len());
            assert("Organization"@.len() != "k"@.len());
            assert("Organization"@.len() != "v"@.len());
        },
        Header::Priority => {
            reveal_strlit("Priority");
            assert("Priority"@.len() != "AuthenticationInfo"@.len());
            assert("Priority"@.len() != "AuthenticationInfo"@.len());
            assert("Priority"@.len() != "k"@.len());
            assert("Priority"@.len() != "v"@.len());
        },
        Header::ProxyAuthenticate => {
            reveal_strlit("Proxy-Authenticate");
            assert("Proxy-Authenticate"@[0] != "AuthenticationInfo"@[0]);
            assert("Proxy-Authenticate"@[0] != "AuthenticationInfo"@[0]);
            assert("Proxy-Authenticate"@.len() != "k"@.len());
            assert("Proxy-Authenticate"@.len() != "v"@.len());
        },
        Header::ProxyAuthorization => {
            reveal_strlit("Proxy-Authorization");
            assert("Proxy-Authorization"@.len() != "AuthenticationInfo"@.len());
            assert("Proxy-Authorization"@.len() != "AuthenticationInfo"@.len());
            assert("Proxy-Authorization"@.len() != "k"@.len());
            assert("Proxy-Authorization"@.len() != "v"@.len());
        },
        Header::ProxyRequire => {
            reveal_strlit("Proxy-Require");
            assert("Proxy-Require"@.len() != "AuthenticationInfo"@.len());
            assert("Proxy-Require"@.len() != "AuthenticationInfo"@.len());
            assert("Proxy-Require"@.len() != "k"@.len());
            assert("Proxy-Require"@.len() != "v"@.len());
        },
        Header::RecordRoute => {
            reveal_strlit("Record-Route");
            assert("Record-Route"@.len() != "AuthenticationInfo"@.len());
            assert("Record-Route"@.len() != "AuthenticationInfo"@.len());
            assert("Record-Route"@.len() != "k"@.len());
            assert("Record-Route"@.len() != "v"@.len());
        },
        Header::ReplyTo => {
            reveal_strlit("Reply-To");
            assert("Reply-To"@.len() != "AuthenticationInfo"@.len());
            assert("Reply-To"@.len() != "AuthenticationInfo"@.len());
            assert("Reply-To"@.len() != "k"@.len());
            assert("Reply-To"@.len() != "v"@.len());
        },
        Header::Require => {
            reveal_strlit("Require");
            assert("Require"@.len() != "AuthenticationInfo"@.len());
            assert("Require"@.len() != "AuthenticationInfo"@.len());
            assert("Require"@.len() != "k"@.len());
            assert("Require"@.len() != "v"@.len());
        },
        Header::RetryAfter => {
            reveal_strlit("Retry-After");
            assert("Retry-After"@.len() != "AuthenticationInfo"@.len());
            assert("Retry-After"@.len() != "AuthenticationInfo"@.len());
            assert("Retry-After"@.len() != "k"@.len());
            assert("Retry-After"@.len() != "v"@.len());
        },
        Header::Route => {
            reveal_strlit("Route");
            assert("Route"@.len() != "AuthenticationInfo"@.len());
            assert("Route"@.len() != "AuthenticationInfo"@.len());
            assert("Route"@.len() != "k"@.len());
            assert("Route"@.len() != "v"@.len());
        },
        Header::Server => {
            reveal_strlit("Server");
            assert("Server"@.len() != "AuthenticationInfo"@.len());
            assert("Server"@.len() != "AuthenticationInfo"@.len());
            assert("Server"@.len() != "k"@.len());
            assert("Server"@.len() != "v"@.len());
        },
        Header::Subject => {
            reveal_strlit("Subject");
            reveal_strlit("s");
            assert("Subject"@.len() != "AuthenticationInfo"@.len());
            assert("s"@.len() != "AuthenticationInfo"@.len());
            assert("s"@[0] != "k"@[0]);
            assert("s"@[0] != "v"@[0]);
        },
        Header::Supported => {
            reveal_strlit("Supported");
            reveal_strlit("k");
            assert("Supported"@.len() != "AuthenticationInfo"@.len());
            assert("k"@.len() != "AuthenticationInfo"@.len());
            assert("k"@[0] != "v"@[0]);
        },
        Header::Timestamp => {
            reveal_strlit("Timestamp");
            assert("Timestamp"@.len() != "AuthenticationInfo"@.len());
            assert("Timestamp"@.len() != "AuthenticationInfo"@.len());
            assert("Timestamp"@.len() != "k"@.len());
            assert("Timestamp"@.len() != "v"@.len());
        },
        Header::To => {
            reveal_strlit("To");
            reveal_strlit("t");
            assert("To"@.len() != "AuthenticationInfo"@.len());
            assert("t"@.len() != "AuthenticationInfo"@.len());
            assert("t"@[0] != "k"@[0]);
            assert("t"@[0] != "v"@[0]);
        },
        Header::Unsupported => {
            reveal_strlit("Unsupported");
            assert("Unsupported"@.len() != "AuthenticationInfo"@.len());
            assert("Unsupported"@.len() != "AuthenticationInfo"@.len());
            assert("Unsupported"@.len() != "k"@.len());
            assert("Unsupported"@.len() != "v"@.len());
        },
        Header::UserAgent => {
            reveal_strlit("User-Agent");
            assert("User-Agent"@.len() != "AuthenticationInfo"@.len());
            assert("User-Agent"@.len() != "AuthenticationInfo"@.len());
            assert("User-Agent"@.len() != "k"@.len());
            assert("User-Agent"@.len() != "v"@.len());
        },
        Header::Via => {
            reveal_strlit("Via");
            reveal_strlit("v");
            assert("Via"@.len() != "AuthenticationInfo"@.len());
            assert("v"@.len() != "AuthenticationInfo"@.len());
            assert("v"@[0] != "k"@[0]);
        },
        Header::Warning => {
            reveal_strlit("Warning");
            assert("Warning"@.len() != "AuthenticationInfo"@.len());
            assert("Warning"@.len() != "AuthenticationInfo"@.len());
            assert("Warning"@.len() != "k"@.len());
            assert("Warning"@.len() != "v"@.len());
        },
        Header::WWWAuthenticate => {
            reveal_strlit("WWW-Authenticate");
            assert("WWW-Authenticate"@.len() != "AuthenticationInfo"@.len());
            assert("WWW-Authenticate"@.len() != "AuthenticationInfo"@.len());
            assert("WWW-Authenticate"@.len() != "k"@.len());
            assert("WWW-Authenticate"@.len() != "v"@.len());
        },
    }
}

/// Distinct headers have distinct names, both full and compact.
pub proof fn lemma_header_names_distinct(h1: Header, h2: Header, compact: bool)
    requires
        h1 != h2,
    ensures
        canonical_name(h1, compact) != canonical_name(h2, compact),
{
    lemma_names_differ_from_special(h1);
    lemma_names_differ_from_special(h2);
    if !compact {
        if h1 != Header::AuthenticationInfo && h2 != Header::AuthenticationInfo {
            lemma_full_name_reads_back(h1);
            lemma_full_name_reads_back(h2);
        }
    } else {
        let special = |h: Header|
            h == Header::AuthenticationInfo || h == Header::Supported || h == Header::Via;
        if !special(h1) && !special(h2) {
            lemma_compact_name_reads_back(h1);
            lemma_compact_name_reads_back(h2);
        }
    }
}

/// Header names are read in any letter case: an ASCII name denotes the same
/// header as its ASCII lowercase and its ASCII uppercase forms.
pub proof fn lemma_header_case_insensitive(s: Seq<char>)
    requires
        is_ascii_chars(s),
    ensures
        header_from_text(ascii_lowercase(s)) == header_from_text(s),
        header_from_text(ascii_uppercase(s)) == header_from_text(s),
{
    lemma_ascii_case_forms(s);
}

/// Every header's written name reads back through [`Header::from_string`] as
/// that header, and so does the name in capitals; the one exception is
/// `AuthenticationInfo` (see [`lemma_full_name_reads_back`]).
pub proof fn lemma_header_name_from_text(h: Header)
    requires
        h != Header::AuthenticationInfo,
    ensures
        header_from_text(header_name(h)) == Some(h),
        header_from_text(ascii_uppercase(header_name(h))) == Some(h),
{
    let n = header_name(h);
    lemma_header_name_letters(h);
    assert(is_ascii_chars(n));
    lemma_full_name_reads_back(h);
    lemma_ascii_case_forms(n);
}

/// Every header's compact name reads back through [`Header::from_string`] as
/// that header, with the exceptions of [`lemma_compact_name_reads_back`].
pub proof fn lemma_compact_name_from_text(h: Header)
    requires
        h != Header::AuthenticationInfo,
        h != Header::Supported,
        h != Header::Via,
    ensures
        header_from_text(canonical_name(h, true)) == Some(h),
{
    reveal_strlit("i");
    reveal_strlit("m");
    reveal_strlit("e");
    reveal_strlit("l");
    reveal_strlit("c");
    reveal_strlit("f");
    reveal_strlit("s");
    reveal_strlit("t");
    lemma_header_name_letters(h);
    lemma_compact_name_reads_back(h);
    assert(is_ascii_chars(canonical_name(h, true)));
}

/// The compact one-letter forms of RFC 3261 read as their headers: `i`
/// Call-ID, `m` Contact, `e` Content-Encoding, `l` Content-Length, `c`
/// Content-Type, `f` From, `s` Subject, `t` To; `k` reads as Via; `v` is not
/// read. The compact names written for headers are those letters, with `k`
/// for Supported and `v` for Via.
pub proof fn lemma_compact_forms()
    ensures
        header_from_text("i"@) == Some(Header::CallID),
        header_from_text("m"@) == Some(Header::Contact),
        header_from_text("e"@) == Some(Header::ContentEncoding),
        header_from_text("l"@) == Some(Header::ContentLength),
        header_from_text("c"@) == Some(Header::ContentType),
        header_from_text("f"@) == Some(Header::From),
        header_from_text("s"@) == Some(Header::Subject),
        header_from_text("t"@) == Some(Header::To),
        header_from_text("k"@) == Some(Header::Via),
        header_from_text("v"@) is None,
        canonical_name(Header::CallID, true) == "i"@,
        canonical_name(Header::Contact, true) == "m"@,
        canonical_name(Header::ContentEncoding, true) == "e"@,
        canonical_name(Header::ContentLength, true) == "l"@,
        canonical_name(Header::ContentType, true) == "c"@,
        canonical_name(Header::From, true) == "f"@,
        canonical_name(Header::Subject, true) == "s"@,
        canonical_name(Header::Supported, true) == "k"@,
        canonical_name(Header::To, true) == "t"@,
        canonical_name(Header::Via, true) == "v"@,
{
    lemma_compact_name_from_text(Header::CallID);
    lemma_compact_name_from_text(Header::Contact);
    lemma_compact_name_from_text(Header::ContentEncoding);
    lemma_compact_name_from_text(Header::ContentLength);
    lemma_compact_name_from_text(Header::ContentType);
    lemma_compact_name_from_text(Header::From);
    lemma_compact_name_from_text(Header::Subject);
    lemma_compact_name_from_text(Header::To);
    reveal_strlit("k");
    reveal_strlit("v");
    reveal_strlit("accept");
    reveal_strlit("accept-encoding");
    reveal_strlit("accept-language");
    reveal_strlit("alert-info");
    reveal_strlit("allow");
    reveal_strlit("authentication-info");
    reveal_strlit("authorization");
    reveal_strlit("c");
    reveal_strlit("call-id");
    reveal_strlit("call-info");
    reveal_strlit("contact");
    reveal_strlit("content-disposition");
    reveal_strlit("content-encoding");
    reveal_strlit("content-language");
    reveal_strlit("content-length");
    reveal_strlit("content-type");
    reveal_strlit("cseq");
    reveal_strlit("date");
    reveal_strlit("e");
    reveal_strlit("error-info");
    reveal_strlit("expires");
    reveal_strlit("f");
    reveal_strlit("from");
    reveal_strlit("i");
    reveal_strlit("in-reply-to");
    reveal_strlit("l");
    reveal_strlit("m");
    reveal_strlit("max-forwards");
    reveal_strlit("mime-version");
    reveal_strlit("min-expires");
    reveal_strlit("organization");
    reveal_strlit("priority");
    reveal_strlit("proxy-authenticate");
    reveal_strlit("proxy-authorization");
    reveal_strlit("proxy-require");
    reveal_strlit("record-route");
    reveal_strlit("reply-to");
    reveal_strlit("require");
    reveal_strlit("retry-after");
    reveal_strlit("route");
    reveal_strlit("s");
    reveal_strlit("server");
    reveal_strlit("subject");
    reveal_strlit("supported");
    reveal_strlit("t");
    reveal_strlit("timestamp");
    reveal_strlit("to");
    reveal_strlit("unsupported");
    reveal_strlit("user-agent");
    reveal_strlit("via");
    reveal_strlit("warning");
    reveal_strlit("www-authenticate");
    assert(is_ascii_chars("k"@));
    assert(is_ascii_chars("v"@));
    assert(ascii_lowercase("k"@) =~= "k"@);
    assert(ascii_lowercase("v"@) =~= "v"@);
    assert("k"@.len() != "accept"@.len());
    assert("k"@.len() != "accept-encoding"@.len());
    assert("k"@.len() != "accept-language"@.len());
    assert("k"@.len() != "alert-info"@.len());
    assert("k"@.len() != "allow"@.len());
    assert("k"@.len() != "authentication-info"@.len());
    assert("k"@.len() != "authorization"@.len());
    assert("k"@.len() != "call-id"@.len());
    assert("k"@[0] != "i"@[0]);
    assert("k"@.len() != "call-info"@.len());
    assert("k"@.len() != "contact"@.len());
    assert("k"@[0] != "m"@[0]);
    assert("k"@.len() != "content-disposition"@.len());
    assert("k"@.len() != "content-encoding"@.len());
    assert("k"@[0] != "e"@[0]);
    assert("k"@.len() != "content-language"@.len());
    assert("k"@.len() != "content-length"@.len());
    assert("k"@[0] != "l"@[0]);
    assert("k"@.len() != "content-type"@.len());
    assert("k"@[0] != "c"@[0]);
    assert("k"@.len() != "cseq"@.len());
    assert("k"@.len() != "date"@.len());
    assert("k"@.len() != "error-info"@.len());
    assert("k"@.len() != "expires"@.len());
    assert("k"@.len() != "from"@.len());
    assert("k"@[0] != "f"@[0]);
    assert("k"@.len() != "in-reply-to"@.len());
    assert("k"@.len() != "max-forwards"@.len());
    assert("k"@.len() != "mime-version"@.len());
    assert("k"@.len() != "min-expires"@.len());
    assert("k"@.len() != "organization"@.len());
    assert("k"@.len() != "priority"@.len());
    assert("k"@.len() != "proxy-authenticate"@.len());
    assert("k"@.len() != "proxy-authorization"@.len());
    assert("k"@.len() != "proxy-require"@.len());
    assert("k"@.len() != "record-route"@.len());
    assert("k"@.len() != "reply-to"@.len());
    assert("k"@.len() != "require"@.len());
    assert("k"@.len() != "retry-after"@.len());
    assert("k"@.len() != "route"@.len());
    assert("k"@.len() != "server"@.len());
    assert("k"@.len() != "subject"@.len());
    assert("k"@[0] != "s"@[0]);
    assert("k"@.len() != "supported"@.len());
    assert("k"@.len() != "timestamp"@.len());
    assert("k"@.len() != "to"@.len());
    assert("k"@[0] != "t"@[0]);
    assert("k"@.len() != "unsupported"@.len());
    assert("k"@.len() != "user-agent"@.len());
    assert("k"@.len() != "via"@.len());
    assert("v"@.len() != "accept"@.len());
    assert("v"@.len() != "accept-encoding"@.len());
    assert("v"@.len() != "accept-language"@.len());
    assert("v"@.len() != "alert-info"@.len());
    assert("v"@.len() != "allow"@.len());
    assert("v"@.len() != "authentication-info"@.len());
    assert("v"@.len() != "authorization"@.len());
    assert("v"@.len() != "call-id"@.len());
    assert("v"@[0] != "i"@[0]);
    assert("v"@.len() != "call-info"@.len());
    assert("v"@.len() != "contact"@.len());
    assert("v"@[0] != "m"@[0]);
    assert("v"@.len() != "content-disposition"@.len());
    assert("v"@.len() != "content-encoding"@.len());
    assert("v"@[0] != "e"@[0]);
    assert("v"@.len() != "content-language"@.len());
    assert("v"@.len() != "content-length"@.len());
    assert("v"@[0] != "l"@[0]);
    assert("v"@.len() != "content-type"@.len());
    assert("v"@[0] != "c"@[0]);
    assert("v"@.len() != "cseq"@.len());
    assert("v"@.len() != "date"@.len());
    assert("v"@.len() != "error-info"@.len());
    assert("v"@.len() != "expires"@.len());
    assert("v"@.len() != "from"@.len());
    assert("v"@[0] != "f"@[0]);
    assert("v"@.len() != "in-reply-to"@.len());
    assert("v"@.len() != "max-forwards"@.len());
    assert("v"@.len() != "mime-version"@.len());
    assert("v"@.len() != "min-expires"@.len());
    assert("v"@.len() != "organization"@.len());
    assert("v"@.len() != "priority"@.len());
    assert("v"@.len() != "proxy-authenticate"@.len());
    assert("v"@.len() != "proxy-authorization"@.len());
    assert("v"@.len() != "proxy-require"@.len());
    assert("v"@.len() != "record-route"@.len());
    assert("v"@.len() != "reply-to"@.len());
    assert("v"@.len() != "require"@.len());
    assert("v"@.len() != "retry-after"@.len());
    assert("v"@.len() != "route"@.len());
    assert("v"@.len() != "server"@.len());
    assert("v"@.len() != "subject"@.len());
    assert("v"@[0] != "s"@[0]);
    assert("v"@.len() != "supported"@.len());
    assert("v"@.len() != "timestamp"@.len());
    assert("v"@.len() != "to"@.len());
    assert("v"@[0] != "t"@[0]);
    assert("v"@.len() != "unsupported"@.len());
    assert("v"@.len() != "user-agent"@.len());
    assert("v"@.len() != "via"@.len());
    assert("v"@[0] != "k"@[0]);
    assert("v"@.len() != "warning"@.len());
    assert("v"@.len() != "www-authenticate"@.len());
}

proof fn lemma_authentication_info_lookup()
    ensures
        header_from_text("authentication-info"@) == Some(Header::AuthenticationInfo),
{
    reveal_strlit("authentication-info");
    reveal_strlit("accept");
    reveal_strlit("accept-encoding");
    reveal_strlit("accept-language");
    reveal_strlit("alert-info");
    reveal_strlit("allow");
    assert(is_ascii_chars("authentication-info"@));
    assert(ascii_lowercase("authentication-info"@) =~= "authentication-info"@);
    assert("authentication-info"@.len() != "accept"@.len());
    assert("authentication-info"@.len() != "accept-encoding"@.len());
    assert("authentication-info"@.len() != "accept-language"@.len());
    assert("authentication-info"@.len() != "alert-info"@.len());
    assert("authentication-info"@.len() != "allow"@.len());
}

/// The written name of every header, and the lowercase name by which
/// [`Header::from_string`] reads it (for `AuthenticationInfo` the name
/// differs from the written one by a hyphen).
#[verifier::spinoff_prover]
pub proof fn lemma_header_table(h: Header)
    ensures
        match h {
            Header::Accept => header_name(h) == "Accept"@ && header_from_text("accept"@) == Some(h),
            Header::AcceptEncoding => header_name(h) == "Accept-Encoding"@ && header_from_text("accept-encoding"@) == Some(h),
            Header::AcceptLanguage => header_name(h) == "Accept-Language"@ && header_from_text("accept-language"@) == Some(h),
            Header::AlertInfo => header_name(h) == "Alert-Info"@ && header_from_text("alert-info"@) == Some(h),
            Header::Allow => header_name(h) == "Allow"@ && header_from_text("allow"@) == Some(h),
            Header::AuthenticationInfo => header_name(h) == "AuthenticationInfo"@ && header_from_text("authentication-info"@) == Some(h),
            Header::Authorization => header_name(h) == "Authorization"@ && header_from_text("authorization"@) == Some(h),
            Header::CallID => header_name(h) == "Call-ID"@ && header_from_text("call-id"@) == Some(h),
            Header::CallInfo => header_name(h) == "Call-Info"@ && header_from_text("call-info"@) == Some(h),
            Header::Contact => header_name(h) == "Contact"@ && header_from_text("contact"@) == Some(h),
            Header::ContentDisposition => header_name(h) == "Content-Disposition"@ && header_from_text("content-disposition"@) == Some(h),
            Header::ContentEncoding => header_name(h) == "Content-Encoding"@ && header_from_text("content-encoding"@) == Some(h),
            Header::ContentLanguage => header_name(h) == "Content-Language"@ && header_from_text("content-language"@) == Some(h),
            Header::ContentLength => header_name(h) == "Content-Length"@ && header_from_text("content-length"@) == Some(h),
            Header::ContentType => header_name(h) == "Content-Type"@ && header_from_text("content-type"@) == Some(h),
            Header::CSeq => header_name(h) == "CSeq"@ && header_from_text("cseq"@) == Some(h),
            Header::Date => header_name(h) == "Date"@ && header_from_text("date"@) == Some(h),
            Header::ErrorInfo => header_name(h) == "Error-Info"@ && header_from_text("error-info"@) == Some(h),
            Header::Expires => header_name(h) == "Expires"@ && header_from_text("expires"@) == Some(h),
            Header::From => header_name(h) == "From"@ && header_from_text("from"@) == Some(h),
            Header::InReplyTo => header_name(h) == "In-Reply-To"@ && header_from_text("in-reply-to"@) == Some(h),
            Header::MaxForwards => header_name(h) == "Max-Forwards"@ && header_from_text("max-forwards"@) == Some(h),
            Header::MIMEVersion => header_name(h) == "MIME-Version"@ && header_from_text("mime-version"@) == Some(h),
            Header::MinExpires => header_name(h) == "Min-Expires"@ && header_from_text("min-expires"@) == Some(h),
            Header::Organization => header_name(h) == "Organization"@ && header_from_text("organization"@) == Some(h),
            Header::Priority => header_name(h) == "Priority"@ && header_from_text("priority"@) == Some(h),
            Header::ProxyAuthenticate => header_name(h) == "Proxy-Authenticate"@ && header_from_text("proxy-authenticate"@) == Some(h),
            Header::ProxyAuthorization => header_name(h) == "Proxy-Authorization"@ && header_from_text("proxy-authorization"@) == Some(h),
            Header::ProxyRequire => header_name(h) == "Proxy-Require"@ && header_from_text("proxy-require"@) == Some(h),
            Header::RecordRoute => header_name(h) == "Record-Route"@ && header_from_text("record-route"@) == Some(h),
            Header::ReplyTo => header_name(h) == "Reply-To"@ && header_from_text("reply-to"@) == Some(h),
            Header::Require => header_name(h) == "Require"@ && header_from_text("require"@) == Some(h),
            Header::RetryAfter => header_name(h) == "Retry-After"@ && header_from_text("retry-after"@) == Some(h),
            Header::Route => header_name(h) == "Route"@ && header_from_text("route"@) == Some(h),
            Header::Server => header_name(h) == "Server"@ && header_from_text("server"@) == Some(h),
            Header::Subject => header_name(h) == "Subject"@ && header_from_text("subject"@) == Some(h),
            Header::Supported => header_name(h) == "Supported"@ && header_from_text("supported"@) == Some(h),
            Header::Timestamp => header_name(h) == "Timestamp"@ && header_from_text("timestamp"@) == Some(h),
            Header::To => header_name(h) == "To"@ && header_from_text("to"@) == Some(h),
            Header::Unsupported => header_name(h) == "Unsupported"@ && header_from_text("unsupported"@) == Some(h),
            Header::UserAgent => header_name(h) == "User-Agent"@ && header_from_text("user-agent"@) == Some(h),
            Header::Via => header_name(h) == "Via"@ && header_from_text("via"@) == Some(h),
            Header::Warning => header_name(h) == "Warning"@ && header_from_text("warning"@) == Some(h),
            Header::WWWAuthenticate => header_name(h) == "WWW-Authenticate"@ && header_from_text("www-authenticate"@) == Some(h),
        },
{
    match h {
        Header::Accept => {
            lemma_header_name_from_text(h);
            lemma_header_name_letters(h);
            lemma_header_case_insensitive("Accept"@);
            reveal_strlit("Accept");
            reveal_strlit("accept");
            assert(ascii_lowercase("Accept"@) =~= "accept"@);
        },
        Header::AcceptEncoding => {
            lemma_header_name_from_text(h);
            lemma_header_name_letters(h);
            lemma_header_case_insensitive("Accept-Encoding"@);
            reveal_strlit("Accept-Encoding");
            reveal_strlit("accept-encoding");
            assert(ascii_lowercase("Accept-Encoding"@) =~= "accept-encoding"@);
        },
        Header::AcceptLanguage => {
            lemma_header_name_from_text(h);
            lemma_header_name_letters(h);
            lemma_header_case_insensitive("Accept-Language"@);
            reveal_strlit("Accept-Language");
            reveal_strlit("accept-language");
            assert(ascii_lowercase("Accept-Language"@) =~= "accept-language"@);
        },
        Header::AlertInfo => {
            lemma_header_name_from_text(h);
            lemma_header_name_letters(h);
            lemma_header_case_insensitive("Alert-Info"@);
            reveal_strlit("Alert-Info");
            reveal_strlit("alert-info");
            assert(ascii_lowercase("Alert-Info"@) =~= "alert-info"@);
        },
        Header::Allow => {
            lemma_header_name_from_text(h);
            lemma_header_name_letters(h);
            lemma_header_case_insensitive("Allow"@);
            reveal_strlit("Allow");
            reveal_strlit("allow");
            assert(ascii_lowercase("Allow"@) =~= "allow"@);
        },
        Header::AuthenticationInfo => lemma_authentication_info_lookup(),
        Header::Authorization => {
            lemma_header_name_from_text(h);
            lemma_header_name_letters(h);
            lemma_header_case_insensitive("Authorization"@);
            reveal_strlit("Authorization");
            reveal_strlit("authorization");
            assert(ascii_lowercase("Authorization"@) =~= "authorization"@);
        },
        Header::CallID => {
            lemma_header_name_from_text(h);
            lemma_header_name_letters(h);
            lemma_header_case_insensitive("Call-ID"@);
            reveal_strlit("Call-ID");
            reveal_strlit("call-id");
            assert(ascii_lowercase("Call-ID"@) =~= "call-id"@);
        },
        Header::CallInfo => {
            lemma_header_name_from_text(h);
            lemma_header_name_letters(h);
            lemma_header_case_insensitive("Call-Info"@);
            reveal_strlit("Call-Info");
            reveal_strlit("call-info");
            assert(ascii_lowercase("Call-Info"@) =~= "call-info"@);
        },
        Header::Contact => {
            lemma_header_name_from_text(h);
            lemma_header_name_letters(h);
            lemma_header_case_insensitive("Contact"@);
            reveal_strlit("Contact");
            reveal_strlit("contact");
            assert(ascii_lowercase("Contact"@) =~= "contact"@);
        },
        Header::ContentDisposition => {
            lemma_header_name_from_text(h);
            lemma_header_name_letters(h);
            lemma_header_case_insensitive("Content-Disposition"@);
            reveal_strlit("Content-Disposition");
            reveal_strlit("content-disposition");
            assert(ascii_lowercase("Content-Disposition"@) =~= "content-disposition"@);
        },
        Header::ContentEncoding => {
            lemma_header_name_from_text(h);
            lemma_header_name_letters(h);
            lemma_header_case_insensitive("Content-Encoding"@);
            reveal_strlit("Content-Encoding");
            reveal_strlit("content-encoding");
            assert(ascii_lowercase("Content-Encoding"@) =~= "content-encoding"@);
        },
        Header::ContentLanguage => {
            lemma_header_name_from_text(h);
            lemma_header_name_letters(h);
            lemma_header_case_insensitive("Content-Language"@);
            reveal_strlit("Content-Language");
            reveal_strlit("content-language");
            assert(ascii_lowercase("Content-Language"@) =~= "content-language"@);
        },
        Header::ContentLength => {
            lemma_header_name_from_text(h);
            lemma_header_name_letters(h);
            lemma_header_case_insensitive("Content-Length"@);
            reveal_strlit("Content-Length");
            reveal_strlit("content-length");
            assert(ascii_lowercase("Content-Length"@) =~= "content-length"@);
        },
        Header::ContentType => {
            lemma_header_name_from_text(h);
            lemma_header_name_letters(h);
            lemma_header_case_insensitive("Content-Type"@);
            reveal_strlit("Content-Type");
            reveal_strlit("content-type");
            assert(ascii_lowercase("Content-Type"@) =~= "content-type"@);
        },
        Header::CSeq => {
            lemma_header_name_from_text(h);
            lemma_header_name_letters(h);
            lemma_header_case_insensitive("CSeq"@);
            reveal_strlit("CSeq");
            reveal_strlit("cseq");
            assert(ascii_lowercase("CSeq"@) =~= "cseq"@);
        },
        Header::Date => {
            lemma_header_name_from_text(h);
            lemma_header_name_letters(h);
            lemma_header_case_insensitive("Date"@);
            reveal_strlit("Date");
            reveal_strlit("date");
            assert(ascii_lowercase("Date"@) =~= "date"@);
        },
        Header::ErrorInfo => {
            lemma_header_name_from_text(h);
            lemma_header_name_letters(h);
            lemma_header_case_insensitive("Error-Info"@);
            reveal_strlit("Error-Info");
            reveal_strlit("error-info");
            assert(ascii_lowercase("Error-Info"@) =~= "error-info"@);
        },
        Header::Expires => {
            lemma_header_name_from_text(h);
            lemma_header_name_letters(h);
            lemma_header_case_insensitive("Expires"@);
            reveal_strlit("Expires");
            reveal_strlit("expires");
            assert(ascii_lowercase("Expires"@) =~= "expires"@);
        },
        Header::From => {
            lemma_header_name_from_text(h);
            lemma_header_name_letters(h);
            lemma_header_case_insensitive("From"@);
            reveal_strlit("From");
            reveal_strlit("from");
            assert(ascii_lowercase("From"@) =~= "from"@);
        },
        Header::InReplyTo => {
            lemma_header_name_from_text(h);
            lemma_header_name_letters(h);
            lemma_header_case_insensitive("In-Reply-To"@);
            reveal_strlit("In-Reply-To");
            reveal_strlit("in-reply-to");
            assert(ascii_lowercase("In-Reply-To"@) =~= "in-reply-to"@);
        },
        Header::MaxForwards => {
            lemma_header_name_from_text(h);
            lemma_header_name_letters(h);
            lemma_header_case_insensitive("Max-Forwards"@);
            reveal_strlit("Max-Forwards");
            reveal_strlit("max-forwards");
            assert(ascii_lowercase("Max-Forwards"@) =~= "max-forwards"@);
        },
        Header::MIMEVersion => {
            lemma_header_name_from_text(h);
            lemma_header_name_letters(h);
            lemma_header_case_insensitive("MIME-Version"@);
            reveal_strlit("MIME-Version");
            reveal_strlit("mime-version");
            assert(ascii_lowercase("MIME-Version"@) =~= "mime-version"@);
        },
        Header::MinExpires => {
            lemma_header_name_from_text(h);
            lemma_header_name_letters(h);
            lemma_header_case_insensitive("Min-Expires"@);
            reveal_strlit("Min-Expires");
            reveal_strlit("min-expires");
            assert(ascii_lowercase("Min-Expires"@) =~= "min-expires"@);
        },
        Header::Organization => {
            lemma_header_name_from_text(h);
            lemma_header_name_letters(h);
            lemma_header_case_insensitive("Organization"@);
            reveal_strlit("Organization");
            reveal_strlit("organization");
            assert(ascii_lowercase("Organization"@) =~= "organization"@);
        },
        Header::Priority => {
            lemma_header_name_from_text(h);
            lemma_header_name_letters(h);
            lemma_header_case_insensitive("Priority"@);
            reveal_strlit("Priority");
            reveal_strlit("priority");
            assert(ascii_lowercase("Priority"@) =~= "priority"@);
        },
        Header::ProxyAuthenticate => {
            lemma_header_name_from_text(h);
            lemma_header_name_letters(h);
            lemma_header_case_insensitive("Proxy-Authenticate"@);
            reveal_strlit("Proxy-Authenticate");
            reveal_strlit("proxy-authenticate");
            assert(ascii_lowercase("Proxy-Authenticate"@) =~= "proxy-authenticate"@);
        },
        Header::ProxyAuthorization => {
            lemma_header_name_from_text(h);
            lemma_header_name_letters(h);
            lemma_header_case_insensitive("Proxy-Authorization"@);
            reveal_strlit("Proxy-Authorization");
            reveal_strlit("proxy-authorization");
            assert(ascii_lowercase("Proxy-Authorization"@) =~= "proxy-authorization"@);
        },
        Header::ProxyRequire => {
            lemma_header_name_from_text(h);
            lemma_header_name_letters(h);
            lemma_header_case_insensitive("Proxy-Require"@);
            reveal_strlit("Proxy-Require");
            reveal_strlit("proxy-require");
            assert(ascii_lowercase("Proxy-Require"@) =~= "proxy-require"@);
        },
        Header::RecordRoute => {
            lemma_header_name_from_text(h);
            lemma_header_name_letters(h);
            lemma_header_case_insensitive("Record-Route"@);
            reveal_strlit("Record-Route");
            reveal_strlit("record-route");
            assert(ascii_lowercase("Record-Route"@) =~= "record-route"@);
        },
        Header::ReplyTo => {
            lemma_header_name_from_text(h);
            lemma_header_name_letters(h);
            lemma_header_case_insensitive("Reply-To"@);
            reveal_strlit("Reply-To");
            reveal_strlit("reply-to");
            assert(ascii_lowercase("Reply-To"@) =~= "reply-to"@);
        },
        Header::Require => {
            lemma_header_name_from_text(h);
            lemma_header_name_letters(h);
            lemma_header_case_insensitive("Require"@);
            reveal_strlit("Require");
            reveal_strlit("require");
            assert(ascii_lowercase("Require"@) =~= "require"@);
        },
        Header::RetryAfter => {
            lemma_header_name_from_text(h);
            lemma_header_name_letters(h);
            lemma_header_case_insensitive("Retry-After"@);
            reveal_strlit("Retry-After");
            reveal_strlit("retry-after");
            assert(ascii_lowercase("Retry-After"@) =~= "retry-after"@);
        },
        Header::Route => {
            lemma_header_name_from_text(h);
            lemma_header_name_letters(h);
            lemma_header_case_insensitive("Route"@);
            reveal_strlit("Route");
            reveal_strlit("route");
            assert(ascii_lowercase("Route"@) =~= "route"@);
        },
        Header::Server => {
            lemma_header_name_from_text(h);
            lemma_header_name_letters(h);
            lemma_header_case_insensitive("Server"@);
            reveal_strlit("Server");
            reveal_strlit("server");
            assert(ascii_lowercase("Server"@) =~= "server"@);
        },
        Header::Subject => {
            lemma_header_name_from_text(h);
            lemma_header_name_letters(h);
            lemma_header_case_insensitive("Subject"@);
            reveal_strlit("Subject");
            reveal_strlit("subject");
            assert(ascii_lowercase("Subject"@) =~= "subject"@);
        },
        Header::Supported => {
            lemma_header_name_from_text(h);
            lemma_header_name_letters(h);
            lemma_header_case_insensitive("Supported"@);
            reveal_strlit("Supported");
            reveal_strlit("supported");
            assert(ascii_lowercase("Supported"@) =~= "supported"@);
        },
        Header::Timestamp => {
            lemma_header_name_from_text(h);
            lemma_header_name_letters(h);
            lemma_header_case_insensitive("Timestamp"@);
            reveal_strlit("Timestamp");
            reveal_strlit("timestamp");
            assert(ascii_lowercase("Timestamp"@) =~= "timestamp"@);
        },
        Header::To => {
            lemma_header_name_from_text(h);
            lemma_header_name_letters(h);
            lemma_header_case_insensitive("To"@);
            reveal_strlit("To");
            reveal_strlit("to");
            assert(ascii_lowercase("To"@) =~= "to"@);
        },
        Header::Unsupported => {
            lemma_header_name_from_text(h);
            lemma_header_name_letters(h);
            lemma_header_case_insensitive("Unsupported"@);
            reveal_strlit("Unsupported");
            reveal_strlit("unsupported");
            assert(ascii_lowercase("Unsupported"@) =~= "unsupported"@);
        },
        Header::UserAgent => {
            lemma_header_name_from_text(h);
            lemma_header_name_letters(h);
            lemma_header_case_insensitive("User-Agent"@);
            reveal_strlit("User-Agent");
            reveal_strlit("user-agent");
            assert(ascii_lowercase("User-Agent"@) =~= "user-agent"@);
        },
        Header::Via => {
            lemma_header_name_from_text(h);
            lemma_header_name_letters(h);
            lemma_header_case_insensitive("Via"@);
            reveal_strlit("Via");
            reveal_strlit("via");
            assert(ascii_lowercase("Via"@) =~= "via"@);
        },
        Header::Warning => {
            lemma_header_name_from_text(h);
            lemma_header_name_letters(h);
            lemma_header_case_insensitive("Warning"@);
            reveal_strlit("Warning");
            reveal_strlit("warning");
            assert(ascii_lowercase("Warning"@) =~= "warning"@);
        },
        Header::WWWAuthenticate => {
            lemma_header_name_from_text(h);
            lemma_header_name_letters(h);
            lemma_header_case_insensitive("WWW-Authenticate"@);
            reveal_strlit("WWW-Authenticate");
            reveal_strlit("www-authenticate");
            assert(ascii_lowercase("WWW-Authenticate"@) =~= "www-authenticate"@);
        },
    }
}

/// Exactly `Expires`, `Content-Length` and `Max-Forwards` need an integer
/// value; the values generated for `Server` and `Allow` are
/// `Telex PBX v0.1.0` and `REGISTER, INVITE, ACK, CANCEL, OPTIONS, BYE`, and
/// those of every other header but `Date` are empty.
pub proof fn lemma_header_values(h: Header)
    ensures
        is_integer_header(h) <==> (h == Header::Expires || h == Header::ContentLength || h
            == Header::MaxForwards),
        h == Header::Server ==> generated_value(h) == "Telex PBX v0.1.0"@,
        h == Header::Allow ==> generated_value(h) == "REGISTER, INVITE, ACK, CANCEL, OPTIONS, BYE"@,
        h != Header::Server && h != Header::Allow ==> generated_value(h).len() == 0,
{
}

} // verus!
