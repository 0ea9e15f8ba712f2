//! What the server answers to a request: a plan of responses (and pauses
//! between them), and the building of each planned response.

use vstd::prelude::*;
use crate::error::{SipError, SipErrorView};
use crate::header::{Header, is_rfc2822_utc};
use crate::method::Method;
use crate::request::{Request, RequestView};
use crate::response::{
    Response, response_error, response_headers, response_possible, value_accepted,
};
use crate::status::Status;

verus! {

/// The `Contact` value sent to a registering client that authenticated.
pub open spec fn registered_contact() -> Seq<char> {
    "<sip:user@172.19.195.144>"@
}

/// The `WWW-Authenticate` challenge sent to a registering client that did
/// not authenticate.
pub open spec fn register_challenge() -> Seq<char> {
    "Digest algorithm=MD5, realm=\"telex\", nonce=\"23fd5627\""@
}

/// One step of answering a request.
pub enum Reply {
    /// Send a response with this status and these headers set on top of
    /// those of [`Response::new`], in order.
    Respond(Status, Vec<(Header, String)>),
    /// Wait this many milliseconds.
    Pause(u64),
}

/// The content of a [`Reply`].
pub enum ReplyView {
    Respond(Status, Seq<(Header, Seq<char>)>),
    Pause(u64),
}

/// Header settings with their values as characters.
pub open spec fn settings_view(v: Seq<(Header, String)>) -> Seq<(Header, Seq<char>)> {
    v.map_values(|p: (Header, String)| (p.0, p.1@))
}

impl View for Reply {
    type V = ReplyView;

    open spec fn view(&self) -> ReplyView {
        match self {
            Reply::Respond(s, v) => ReplyView::Respond(*s, settings_view(v@)),
            Reply::Pause(ms) => ReplyView::Pause(*ms),
        }
    }
}

/// The answer to a request: a `REGISTER` gets `200 OK` with a contact and an
/// expiry when it carries `Authorization`, else `401 Unauthorized` with a
/// challenge; an `INVITE` gets `100 Trying`, a pause of a second, and
/// `180 Ringing`, both with the request's `To` as `Contact`; an `ACK` gets
/// nothing; `CANCEL` and `OPTIONS` get `200 OK`; every other method gets
/// `501 Not Implemented`.
pub open spec fn planned_replies(q: RequestView) -> Seq<ReplyView> {
    match q.method {
        Method::Register => if q.headers.contains_key(Header::Authorization) {
            seq![
                ReplyView::Respond(
                    Status::OK,
                    seq![(Header::Contact, registered_contact()), (Header::Expires, "300"@)],
                ),
            ]
        } else {
            seq![
                ReplyView::Respond(
                    Status::Unauthorized,
                    seq![(Header::WWWAuthenticate, register_challenge())],
                ),
            ]
        },
        Method::Invite => seq![
            ReplyView::Respond(Status::Trying, seq![(Header::Contact, q.headers[Header::To])]),
            ReplyView::Pause(1000),
            ReplyView::Respond(Status::Ringing, seq![(Header::Contact, q.headers[Header::To])]),
        ],
        Method::Ack => seq![],
        Method::Cancel | Method::Options => seq![ReplyView::Respond(Status::OK, seq![])],
        _ => seq![ReplyView::Respond(Status::NotImplemented, seq![])],
    }
}

/// `m` with the settings applied in order.
pub open spec fn apply_settings(m: Map<Header, Seq<char>>, s: Seq<(Header, Seq<char>)>) -> Map<
    Header,
    Seq<char>,
>
    decreases s.len(),
{
    if s.len() == 0 {
        m
    } else {
        apply_settings(m.insert(s[0].0, s[0].1), s.drop_first())
    }
}

/// The error of the first setting whose header refuses its value, if any.
pub open spec fn settings_error(s: Seq<(Header, Seq<char>)>) -> Option<SipErrorView>
    decreases s.len(),
{
    if s.len() == 0 {
        None
    } else if !value_accepted(s[0].0, s[0].1) {
        Some(SipErrorView::NotAnInteger(s[0].1))
    } else {
        settings_error(s.drop_first())
    }
}

/// The replies to `request`, as [`planned_replies`] states them. An
/// `INVITE` must carry a `To` header, whose value the replies repeat.
pub fn plan_replies(request: &Request) -> (r: Vec<Reply>)
    requires
        request@.method == Method::Invite ==> request@.headers.contains_key(Header::To),
    ensures
        r@.len() == planned_replies(request@).len(),
        forall|i: int| 0 <= i < r@.len() ==> #[trigger] r@[i]@ == planned_replies(request@)[i],
{
    let mut replies: Vec<Reply> = Vec::new();
    match request.method {
        Method::Register => {
            if request.headers.contains_key(Header::Authorization) {
                let mut settings: Vec<(Header, String)> = Vec::new();
                settings.push((Header::Contact, "<sip:user@172.19.195.144>".to_owned()));
                settings.push((Header::Expires, "300".to_owned()));
                assert(settings_view(settings@) =~= seq![
                    (Header::Contact, registered_contact()),
                    (Header::Expires, "300"@),
                ]);
                replies.push(Reply::Respond(Status::OK, settings));
            } else {
                let mut settings: Vec<(Header, String)> = Vec::new();
                settings.push(
                    (
                        Header::WWWAuthenticate,
                        "Digest algorithm=MD5, realm=\"telex\", nonce=\"23fd5627\"".to_owned(),
                    ),
                );
                assert(settings_view(settings@) =~= seq![
                    (Header::WWWAuthenticate, register_challenge()),
                ]);
                replies.push(Reply::Respond(Status::Unauthorized, settings));
            }
        },
        Method::Invite => {
            let to = request.headers.get(Header::To).unwrap();
            let mut trying: Vec<(Header, String)> = Vec::new();
            trying.push((Header::Contact, to.clone()));
            let mut ringing: Vec<(Header, String)> = Vec::new();
            ringing.push((Header::Contact, to.clone()));
            assert(settings_view(trying@) =~= seq![(Header::Contact, request@.headers[Header::To])]);
            assert(settings_view(ringing@) =~= seq![(Header::Contact, request@.headers[Header::To])]);
            replies.push(Reply::Respond(Status::Trying, trying));
            replies.push(Reply::Pause(1000));
            replies.push(Reply::Respond(Status::Ringing, ringing));
        },
        Method::Ack => {},
        Method::Cancel | Method::Options => {
            let settings: Vec<(Header, String)> = Vec::new();
            assert(settings_view(settings@) =~= Seq::<(Header, Seq<char>)>::empty());
            replies.push(Reply::Respond(Status::OK, settings));
        },
        _ => {
            let settings: Vec<(Header, String)> = Vec::new();
            assert(settings_view(settings@) =~= Seq::<(Header, Seq<char>)>::empty());
            replies.push(Reply::Respond(Status::NotImplemented, settings));
        },
    }
    replies
}

/// Builds a planned response: [`Response::new`] for `request` with `status`
/// and no body, then each setting applied with [`Response::set_header`]. It
/// fails as the first of these steps fails.
pub fn build_response(request: &Request, status: Status, settings: &Vec<(Header, String)>) -> (r:
    Result<Response, SipError>)
    ensures
        r is Ok <==> response_possible(request@, None) && settings_error(settings_view(settings@))
            is None,
        r matches Ok(resp) ==> {
            &&& resp@.status == status
            &&& resp@.body == None::<Seq<char>>
            &&& exists|date: Seq<char>|
                is_rfc2822_utc(date) && resp@.headers == apply_settings(
                    #[trigger] response_headers(request@, None, date),
                    settings_view(settings@),
                )
        },
        r matches Err(e) ==> e@ == if !response_possible(request@, None) {
            response_error(request@, None)
        } else {
            settings_error(settings_view(settings@)).unwrap()
        },
{
    let mut response = match Response::new(request, status, None) {
        Ok(resp) => resp,
        Err(e) => {
            return Err(e);
        },
    };
    let ghost date = response@.headers[Header::Date];
    let ghost all = settings_view(settings@);
    assert(all.skip(0) =~= all);
    assert(all.take(0) =~= Seq::<(Header, Seq<char>)>::empty());
    let mut i: usize = 0;
    while i < settings.len()
        invariant
            i <= settings@.len(),
            all == settings_view(settings@),
            response_possible(request@, None),
            response@.status == status,
            response@.body == None::<Seq<char>>,
            settings_error(all.take(i as int)) is None,
            apply_settings(response_headers(request@, None, date), all) == apply_settings(
                response@.headers,
                all.skip(i as int),
            ),
            settings_error(all) == settings_error(all.skip(i as int)),
        decreases settings@.len() - i,
    {
        let (h, v) = &settings[i];
        let ghost rest = all.skip(i as int);
        assert(rest[0] == (*h, v@));
        assert(rest.drop_first() =~= all.skip(i + 1));
        match response.set_header(*h, v.clone()) {
            Ok(_) => {},
            Err(e) => {
                return Err(e);
            },
        }
        proof {
            lemma_settings_error_prefix(all, i as int);
        }
        i = i + 1;
    }
    assert(all.skip(i as int) =~= Seq::<(Header, Seq<char>)>::empty());
    Ok(response)
}

proof fn lemma_settings_error_prefix(s: Seq<(Header, Seq<char>)>, i: int)
    requires
        0 <= i < s.len(),
        settings_error(s.take(i)) is None,
        value_accepted(s[i].0, s[i].1),
    ensures
        settings_error(s.take(i + 1)) is None,
    decreases i,
{
    assert(s.take(i + 1)[0] == s[0]);
    if i > 0 {
        assert(s.take(i)[0] == s[0]);
        assert(s.drop_first()[i - 1] == s[i]);
        assert(s.take(i).drop_first() =~= s.drop_first().take(i - 1));
        assert(s.take(i + 1).drop_first() =~= s.drop_first().take(i));
        assert(value_accepted(s.take(i)[0].0, s.take(i)[0].1));
        assert(settings_error(s.drop_first().take(i - 1)) is None);
        lemma_settings_error_prefix(s.drop_first(), i - 1);
        assert(settings_error(s.drop_first().take(i)) is None);
        assert(settings_error(s.take(i + 1)) == settings_error(s.take(i + 1).drop_first()));
    } else {
        assert(s.take(1).drop_first() =~= Seq::<(Header, Seq<char>)>::empty());
    }
}

/// The replies to each kind of request, with their literal statuses and
/// values: a `REGISTER` with `Authorization` gets `200 OK` with contact
/// `<sip:user@172.19.195.144>` and expiry `300`; one without gets
/// `401 Unauthorized` with the challenge
/// `Digest algorithm=MD5, realm="telex", nonce="23fd5627"`; an `INVITE` gets
/// `100 Trying`, a pause of 1000 ms and `180 Ringing`, each with the request's
/// `To` as `Contact`; an `ACK` gets nothing; `CANCEL` and `OPTIONS` get
/// `200 OK`; `BYE`, `NOTIFY`, `PUBLISH` and `SUBSCRIBE` get
/// `501 Not Implemented`.
pub proof fn lemma_replies_by_method(q: RequestView)
    ensures
        q.method == Method::Register && q.headers.contains_key(Header::Authorization)
            ==> planned_replies(q) == seq![
            ReplyView::Respond(
                Status::OK,
                seq![
                    (Header::Contact, "<sip:user@172.19.195.144>"@),
                    (Header::Expires, "300"@),
                ],
            ),
        ],
        q.method == Method::Register && !q.headers.contains_key(Header::Authorization)
            ==> planned_replies(q) == seq![
            ReplyView::Respond(
                Status::Unauthorized,
                seq![
                    (
                        Header::WWWAuthenticate,
                        "Digest algorithm=MD5, realm=\"telex\", nonce=\"23fd5627\""@,
                    ),
                ],
            ),
        ],
        q.method == Method::Invite ==> planned_replies(q) == seq![
            ReplyView::Respond(Status::Trying, seq![(Header::Contact, q.headers[Header::To])]),
            ReplyView::Pause(1000),
            ReplyView::Respond(Status::Ringing, seq![(Header::Contact, q.headers[Header::To])]),
        ],
        q.method == Method::Ack ==> planned_replies(q).len() == 0,
        q.method == Method::Cancel || q.method == Method::Options ==> planned_replies(q) == seq![
            ReplyView::Respond(Status::OK, Seq::<(Header, Seq<char>)>::empty()),
        ],
        q.method == Method::Bye || q.method == Method::Notify || q.method == Method::Publish
            || q.method == Method::Subscribe ==> planned_replies(q) == seq![
            ReplyView::Respond(Status::NotImplemented, Seq::<(Header, Seq<char>)>::empty()),
        ],
{
}

/// Every `401 Unauthorized` that the server plans carries a
/// `WWW-Authenticate` challenge, so the client can authenticate.
pub proof fn lemma_unauthorized_carries_challenge(q: RequestView, i: int)
    requires
        0 <= i < planned_replies(q).len(),
        planned_replies(q)[i] matches ReplyView::Respond(s, _) && s == Status::Unauthorized,
    ensures
        planned_replies(q)[i] matches ReplyView::Respond(_, settings) && exists|j: int|
            0 <= j < settings.len() && (#[trigger] settings[j]).0 == Header::WWWAuthenticate,
{
    lemma_replies_by_method(q);
    match planned_replies(q)[i] {
        ReplyView::Respond(_, settings) => {
            assert(settings[0].0 == Header::WWWAuthenticate);
        },
        _ => {},
    }
}

} // verus!
