//! SIP request methods.

use vstd::prelude::*;
use crate::error::SipError;
use crate::text::{chars_equal, chars_of};
use crate::unicode::{
    ascii_lowercase, ascii_uppercase, lemma_ascii_case_forms, lowercase_string, to_uppercase,
    uppercase_string,
};
use vstd::utf8::is_ascii_chars;

verus! {

/// The request methods this server knows.
#[derive(Debug, Clone, Copy, PartialEq, Eq, Hash, Structural)]
pub enum Method {
    Invite,
    Ack,
    Options,
    Bye,
    Cancel,
    Register,
    Notify,
    Publish,
    Subscribe,
}

/// The name of a method as it is written on the wire.
pub open spec fn method_name(m: Method) -> Seq<char> {
    match m {
        Method::Invite => "INVITE"@,
        Method::Ack => "ACK"@,
        Method::Options => "OPTIONS"@,
        Method::Bye => "BYE"@,
        Method::Cancel => "CANCEL"@,
        Method::Register => "REGISTER"@,
        Method::Notify => "NOTIFY"@,
        Method::Publish => "PUBLISH"@,
        Method::Subscribe => "SUBSCRIBE"@,
    }
}

/// The method that an uppercase name denotes.
pub open spec fn method_from_uppercase(s: Seq<char>) -> Option<Method> {
    if s == "INVITE"@ {
        Some(Method::Invite)
    } else if s == "ACK"@ {
        Some(Method::Ack)
    } else if s == "OPTIONS"@ {
        Some(Method::Options)
    } else if s == "BYE"@ {
        Some(Method::Bye)
    } else if s == "CANCEL"@ {
        Some(Method::Cancel)
    } else if s == "REGISTER"@ {
        Some(Method::Register)
    } else if s == "NOTIFY"@ {
        Some(Method::Notify)
    } else if s == "PUBLISH"@ {
        Some(Method::Publish)
    } else if s == "SUBSCRIBE"@ {
        Some(Method::Subscribe)
    } else {
        None
    }
}

/// The method that a name denotes in any letter case: the name uppercased
/// (see [`uppercase_string`]) and looked up.
pub open spec fn method_from_text(s: Seq<char>) -> Option<Method> {
    method_from_uppercase(uppercase_string(s))
}

impl Method {
    /// The name of this method as it is written on the wire.
    pub fn name(&self) -> (r: &'static str)
        ensures
            r@ == method_name(*self),
    {
        match self {
            Method::Invite => "INVITE",
            Method::Ack => "ACK",
            Method::Options => "OPTIONS",
            Method::Bye => "BYE",
            Method::Cancel => "CANCEL",
            Method::Register => "REGISTER",
            Method::Notify => "NOTIFY",
            Method::Publish => "PUBLISH",
            Method::Subscribe => "SUBSCRIBE",
        }
    }

    /// The method that an already uppercased name denotes.
    pub fn from_uppercase(upper: &str) -> (r: Option<Method>)
        ensures
            r == method_from_uppercase(upper@),
    {
        let v = chars_of(upper);
        if chars_equal(&v, "INVITE") {
            Some(Method::Invite)
        } else if chars_equal(&v, "ACK") {
            Some(Method::Ack)
        } else if chars_equal(&v, "OPTIONS") {
            Some(Method::Options)
        } else if chars_equal(&v, "BYE") {
            Some(Method::Bye)
        } else if chars_equal(&v, "CANCEL") {
            Some(Method::Cancel)
        } else if chars_equal(&v, "REGISTER") {
            Some(Method::Register)
        } else if chars_equal(&v, "NOTIFY") {
            Some(Method::Notify)
        } else if chars_equal(&v, "PUBLISH") {
            Some(Method::Publish)
        } else if chars_equal(&v, "SUBSCRIBE") {
            Some(Method::Subscribe)
        } else {
            None
        }
    }

    /// The method that `string` names, in any letter case.
    pub fn from_string(string: &String) -> (r: Result<Method, SipError>)
        ensures
            method_from_text(string@) matches Some(m) ==> r == Ok::<Method, SipError>(m),
            method_from_text(string@) is None ==> (r matches Err(
                SipError::UnknownMethod(s),
            ) && s@ == string@),
    {
        let upper = to_uppercase(string.as_str());
        match Method::from_uppercase(upper.as_str()) {
            Some(m) => Ok(m),
            None => Err(SipError::UnknownMethod(string.clone())),
        }
    }
}

/// The written name of every method reads back as that method.
pub proof fn lemma_method_name_reads_back(m: Method)
    ensures
        method_from_uppercase(method_name(m)) == Some(m),
{
    reveal_strlit("INVITE");
    reveal_strlit("ACK");
    reveal_strlit("OPTIONS");
    reveal_strlit("BYE");
    reveal_strlit("CANCEL");
    reveal_strlit("REGISTER");
    reveal_strlit("NOTIFY");
    reveal_strlit("PUBLISH");
    reveal_strlit("SUBSCRIBE");
    match m {
        Method::Invite => {
        },
        Method::Ack => {
            assert("ACK"@.len() != "INVITE"@.len());
        },
        Method::Options => {
            assert("OPTIONS"@.len() != "INVITE"@.len());
            assert("OPTIONS"@.len() != "ACK"@.len());
        },
        Method::Bye => {
            assert("BYE"@[0] != "ACK"@[0]);
            assert("BYE"@.len() != "INVITE"@.len());
            assert("BYE"@.len() != "OPTIONS"@.len());
        },
        Method::Cancel => {
            assert("CANCEL"@[0] != "INVITE"@[0]);
            assert("CANCEL"@.len() != "ACK"@.len());
            assert("CANCEL"@.len() != "OPTIONS"@.len());
            assert("CANCEL"@.len() != "BYE"@.len());
        },
        Method::Register => {
            assert("REGISTER"@.len() != "INVITE"@.len());
            assert("REGISTER"@.len() != "ACK"@.len());
            assert("REGISTER"@.len() != "OPTIONS"@.len());
            assert("REGISTER"@.len() != "BYE"@.len());
            assert("REGISTER"@.len() != "CANCEL"@.len());
        },
        Method::Notify => {
            assert("NOTIFY"@[0] != "INVITE"@[0]);
            assert("NOTIFY"@[0] != "CANCEL"@[0]);
            assert("NOTIFY"@.len() != "ACK"@.len());
            assert("NOTIFY"@.len() != "OPTIONS"@.len());
            assert("NOTIFY"@.len() != "BYE"@.len());
            assert("NOTIFY"@.len() != "REGISTER"@.len());
        },
        Method::Publish => {
            assert("PUBLISH"@[0] != "OPTIONS"@[0]);
            assert("PUBLISH"@.len() != "INVITE"@.len());
            assert("PUBLISH"@.len() != "ACK"@.len());
            assert("PUBLISH"@.len() != "BYE"@.len());
            assert("PUBLISH"@.len() != "CANCEL"@.len());
            assert("PUBLISH"@.len() != "REGISTER"@.len());
            assert("PUBLISH"@.len() != "NOTIFY"@.len());
        },
        Method::Subscribe => {
            assert("SUBSCRIBE"@.len() != "INVITE"@.len());
            assert("SUBSCRIBE"@.len() != "ACK"@.len());
            assert("SUBSCRIBE"@.len() != "OPTIONS"@.len());
            assert("SUBSCRIBE"@.len() != "BYE"@.len());
            assert("SUBSCRIBE"@.len() != "CANCEL"@.len());
            assert("SUBSCRIBE"@.len() != "REGISTER"@.len());
            assert("SUBSCRIBE"@.len() != "NOTIFY"@.len());
            assert("SUBSCRIBE"@.len() != "PUBLISH"@.len());
        },
    }
}

/// Every method name is a non-empty run of ASCII capital letters.
pub proof fn lemma_method_name_capitals(m: Method)
    ensures
        method_name(m).len() >= 1,
        forall|i: int| 0 <= i < method_name(m).len() ==> 'A' <= #[trigger] method_name(m)[i] <= 'Z',
{
    reveal_strlit("INVITE");
    reveal_strlit("ACK");
    reveal_strlit("OPTIONS");
    reveal_strlit("BYE");
    reveal_strlit("CANCEL");
    reveal_strlit("REGISTER");
    reveal_strlit("NOTIFY");
    reveal_strlit("PUBLISH");
    reveal_strlit("SUBSCRIBE");
}

/// Method names are read in any letter case: an ASCII name denotes the same
/// method as its ASCII lowercase and its ASCII uppercase forms.
pub proof fn lemma_method_case_insensitive(s: Seq<char>)
    requires
        is_ascii_chars(s),
    ensures
        method_from_text(ascii_lowercase(s)) == method_from_text(s),
        method_from_text(ascii_uppercase(s)) == method_from_text(s),
{
    lemma_ascii_case_forms(s);
}

/// Every method's written name reads back through [`Method::from_string`]
/// as that method, and so does the name lowercased.
pub proof fn lemma_method_name_from_text(m: Method)
    ensures
        method_from_text(method_name(m)) == Some(m),
        method_from_text(lowercase_string(method_name(m))) == Some(m),
{
    let n = method_name(m);
    lemma_method_name_capitals(m);
    lemma_method_name_reads_back(m);
    assert(is_ascii_chars(n));
    assert(ascii_uppercase(n) =~= n);
    lemma_ascii_case_forms(n);
}

/// The methods and their names: `INVITE`, `ACK`, `OPTIONS`, `BYE`,
/// `CANCEL`, `REGISTER`, `NOTIFY`, `PUBLISH` and `SUBSCRIBE`, each read back
/// in capitals and in small letters.
pub proof fn lemma_method_table()
    ensures
        method_name(Method::Invite) == "INVITE"@,
        method_from_text("INVITE"@) == Some(Method::Invite),
        method_from_text("invite"@) == Some(Method::Invite),
        method_name(Method::Ack) == "ACK"@,
        method_from_text("ACK"@) == Some(Method::Ack),
        method_from_text("ack"@) == Some(Method::Ack),
        method_name(Method::Options) == "OPTIONS"@,
        method_from_text("OPTIONS"@) == Some(Method::Options),
        method_from_text("options"@) == Some(Method::Options),
        method_name(Method::Bye) == "BYE"@,
        method_from_text("BYE"@) == Some(Method::Bye),
        method_from_text("bye"@) == Some(Method::Bye),
        method_name(Method::Cancel) == "CANCEL"@,
        method_from_text("CANCEL"@) == Some(Method::Cancel),
        method_from_text("cancel"@) == Some(Method::Cancel),
        method_name(Method::Register) == "REGISTER"@,
        method_from_text("REGISTER"@) == Some(Method::Register),
        method_from_text("register"@) == Some(Method::Register),
        method_name(Method::Notify) == "NOTIFY"@,
        method_from_text("NOTIFY"@) == Some(Method::Notify),
        method_from_text("notify"@) == Some(Method::Notify),
        method_name(Method::Publish) == "PUBLISH"@,
        method_from_text("PUBLISH"@) == Some(Method::Publish),
        method_from_text("publish"@) == Some(Method::Publish),
        method_name(Method::Subscribe) == "SUBSCRIBE"@,
        method_from_text("SUBSCRIBE"@) == Some(Method::Subscribe),
        method_from_text("subscribe"@) == Some(Method::Subscribe),
{
    lemma_method_name_from_text(Method::Invite);
    reveal_strlit("INVITE");
    reveal_strlit("invite");
    assert(is_ascii_chars("INVITE"@));
    assert(lowercase_string("INVITE"@) =~= "invite"@);
    lemma_method_name_from_text(Method::Ack);
    reveal_strlit("ACK");
    reveal_strlit("ack");
    assert(is_ascii_chars("ACK"@));
    assert(lowercase_string("ACK"@) =~= "ack"@);
    lemma_method_name_from_text(Method::Options);
    reveal_strlit("OPTIONS");
    reveal_strlit("options");
    assert(is_ascii_chars("OPTIONS"@));
    assert(lowercase_string("OPTIONS"@) =~= "options"@);
    lemma_method_name_from_text(Method::Bye);
    reveal_strlit("BYE");
    reveal_strlit("bye");
    assert(is_ascii_chars("BYE"@));
    assert(lowercase_string("BYE"@) =~= "bye"@);
    lemma_method_name_from_text(Method::Cancel);
    reveal_strlit("CANCEL");
    reveal_strlit("cancel");
    assert(is_ascii_chars("CANCEL"@));
    assert(lowercase_string("CANCEL"@) =~= "cancel"@);
    lemma_method_name_from_text(Method::Register);
    reveal_strlit("REGISTER");
    reveal_strlit("register");
    assert(is_ascii_chars("REGISTER"@));
    assert(lowercase_string("REGISTER"@) =~= "register"@);
    lemma_method_name_from_text(Method::Notify);
    reveal_strlit("NOTIFY");
    reveal_strlit("notify");
    assert(is_ascii_chars("NOTIFY"@));
    assert(lowercase_string("NOTIFY"@) =~= "notify"@);
    lemma_method_name_from_text(Method::Publish);
    reveal_strlit("PUBLISH");
    reveal_strlit("publish");
    assert(is_ascii_chars("PUBLISH"@));
    assert(lowercase_string("PUBLISH"@) =~= "publish"@);
    lemma_method_name_from_text(Method::Subscribe);
    reveal_strlit("SUBSCRIBE");
    reveal_strlit("subscribe");
    assert(is_ascii_chars("SUBSCRIBE"@));
    assert(lowercase_string("SUBSCRIBE"@) =~= "subscribe"@);
}

} // verus!
