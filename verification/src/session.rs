//! The session state machine: what the server answers to each request of a
//! device, and what the request changes in the registry.
//!
//! A session lasts as long as one exchange with a device. Reading the request
//! from the network, decoding its body and handing a device's answer to an
//! observer are the caller's business: the session takes the request as
//! plain values and returns the reply together with the delivery to make.

use crate::acs::{lemma_inform_enqueues_once, Acs, AcsView, Transfer, TransferView, CONNREQ_URL};
use crate::soap::{value_of, Body, BodyView, Envelope, EnvelopeView, Inform, InformView};
use crate::utils::{
    self, reply, reply_error, reply_xml, ContentError, Payload, Reply, ReplyView,
    AUTHORIZATION_REQUIRED, CHALLENGE, FORBIDDEN, USER_AGENT,
};
use vstd::prelude::*;
use vstd::utf8::{decode_utf8, valid_utf8};

verus! {

/// The path on which devices reach the server.
pub const CPE_PATH: &'static str = "/cwmpWeb/CPEMgt";

/// The diagnostic sent to a device whose request has a body that is not text.
pub const INVALID_CONTENT: &'static str = "the body is not valid UTF-8";

/// The `Authorization` header of a request.
#[derive(Debug, Clone, PartialEq, Eq)]
pub enum Authorization {
    /// The request has no such header.
    Absent,
    /// The header is there but is not text, so that it is no credential.
    Unreadable,
    /// The header, as the device sent it.
    Presented(String),
}

/// [`Authorization`] as a mathematical value.
pub enum AuthorizationView {
    Absent,
    Unreadable,
    Presented(Seq<char>),
}

impl View for Authorization {
    type V = AuthorizationView;

    open spec fn view(&self) -> AuthorizationView {
        match self {
            Authorization::Absent => AuthorizationView::Absent,
            Authorization::Unreadable => AuthorizationView::Unreadable,
            Authorization::Presented(value) => AuthorizationView::Presented(value@),
        }
    }
}

/// The body of a request.
#[derive(Debug, Clone, PartialEq, Eq)]
pub enum Content {
    /// The body could not be read from the connection; the string says why.
    Unreadable(String),
    /// The bytes of the body, and the message that the codec found in them,
    /// if it found one.
    Read { body: Vec<u8>, envelope: Option<Envelope> },
}

/// [`Content`] as a mathematical value.
pub enum ContentView {
    Unreadable(Seq<char>),
    Read { body: Seq<u8>, envelope: Option<EnvelopeView> },
}

impl View for Content {
    type V = ContentView;

    open spec fn view(&self) -> ContentView {
        match self {
            Content::Unreadable(why) => ContentView::Unreadable(why@),
            Content::Read { body, envelope } => ContentView::Read {
                body: body@,
                envelope: match envelope {
                    Some(envelope) => Some(envelope@),
                    None => None,
                },
            },
        }
    }
}

/// One request of a device, as plain values.
#[derive(Debug, Clone, PartialEq, Eq)]
pub struct Request {
    pub path: String,
    pub authorization: Authorization,
    pub content: Content,
}

/// [`Request`] as a mathematical value.
pub struct RequestView {
    pub path: Seq<char>,
    pub authorization: AuthorizationView,
    pub content: ContentView,
}

impl View for Request {
    type V = RequestView;

    open spec fn view(&self) -> RequestView {
        RequestView {
            path: self.path@,
            authorization: self.authorization@,
            content: self.content@,
        }
    }
}

/// A device's answer on its way to the observer of the transfer it answers.
#[derive(Debug, PartialEq, Eq)]
pub struct Delivery<O> {
    pub observer: O,
    pub response: Envelope,
}

/// [`Delivery`] as a mathematical value.
pub struct DeliveryView<O> {
    pub observer: O,
    pub response: EnvelopeView,
}

impl<O> View for Delivery<O> {
    type V = DeliveryView<O>;

    open spec fn view(&self) -> DeliveryView<O> {
        DeliveryView { observer: self.observer, response: self.response@ }
    }
}

/// What the server does about one request: the reply it sends, and the
/// delivery it makes to an observer, if any.
#[derive(Debug, PartialEq, Eq)]
pub struct Outcome<O> {
    pub reply: Reply,
    pub delivery: Option<Delivery<O>>,
}

/// [`Outcome`] as a mathematical value.
pub struct OutcomeView<O> {
    pub reply: ReplyView,
    pub delivery: Option<DeliveryView<O>>,
}

impl<O> View for Outcome<O> {
    type V = OutcomeView<O>;

    open spec fn view(&self) -> OutcomeView<O> {
        OutcomeView {
            reply: self.reply@,
            delivery: match self.delivery {
                Some(delivery) => Some(delivery@),
                None => None,
            },
        }
    }
}

/// Why a request could not be handled.
#[derive(Debug, Clone, PartialEq, Eq)]
pub enum SessionError {
    /// The body could not be read from the connection; the string says why.
    Transport(String),
    /// The body is not text.
    Content(ContentError),
}

/// [`SessionError`] as a mathematical value.
pub enum SessionErrorView {
    Transport(Seq<char>),
    Content(ContentError),
}

impl View for SessionError {
    type V = SessionErrorView;

    open spec fn view(&self) -> SessionErrorView {
        match self {
            SessionError::Transport(why) => SessionErrorView::Transport(why@),
            SessionError::Content(e) => SessionErrorView::Content(*e),
        }
    }
}

impl SessionErrorView {
    /// The diagnostic that the device is sent.
    pub open spec fn message(self) -> Seq<char> {
        match self {
            SessionErrorView::Transport(why) => why,
            SessionErrorView::Content(_) => INVALID_CONTENT@,
        }
    }
}

impl SessionError {
    /// The diagnostic that the device is sent.
    pub fn message(&self) -> (r: &str)
        ensures
            r@ == self@.message(),
    {
        match self {
            SessionError::Transport(why) => why.as_str(),
            SessionError::Content(_) => INVALID_CONTENT,
        }
    }
}

/// The state that one exchange with a device carries from request to request.
#[derive(Debug, PartialEq, Eq)]
pub struct Session<O> {
    /// The serial number of the device that the session is bound to.
    pub cpe: Option<String>,
    /// The observer of the transfer that was sent last and is not answered yet.
    pub observer: Option<O>,
    /// The correlation id of the last Inform.
    pub id: u32,
}

/// [`Session`] as a mathematical value.
pub struct SessionView<O> {
    pub cpe: Option<Seq<char>>,
    pub observer: Option<O>,
    pub id: u32,
}

impl<O> View for Session<O> {
    type V = SessionView<O>;

    open spec fn view(&self) -> SessionView<O> {
        SessionView {
            cpe: match self.cpe {
                Some(serial) => Some(serial@),
                None => None,
            },
            observer: self.observer,
            id: self.id,
        }
    }
}

/// The reply that refuses the credential of a request, if it is refused. A
/// request without a credential is asked for one. A credential that is
/// there but is not the one that the server expects, letter for letter, is
/// forbidden: one that is not text is never the one expected.
pub open spec fn challenge(basicauth: Seq<char>, authorization: AuthorizationView) -> Option<
    ReplyView,
> {
    match authorization {
        AuthorizationView::Absent => Some(ReplyView::unauthorized()),
        AuthorizationView::Unreadable => Some(ReplyView::forbidden()),
        AuthorizationView::Presented(value) => if value == basicauth {
            None
        } else {
            Some(ReplyView::forbidden())
        },
    }
}

/// The reply that refuses a request before its body is looked at, if it is
/// refused: every path but the one for devices is forbidden, and on that
/// path the credential decides.
pub open spec fn refusal(
    basicauth: Seq<char>,
    path: Seq<char>,
    authorization: AuthorizationView,
) -> Option<ReplyView> {
    if path == CPE_PATH@ {
        challenge(basicauth, authorization)
    } else {
        Some(ReplyView::forbidden())
    }
}

/// A session and a registry after a request, and what the server does about it.
pub struct Step<O> {
    pub session: SessionView<O>,
    pub acs: AcsView<O>,
    pub outcome: OutcomeView<O>,
}

impl<O> OutcomeView<O> {
    /// A reply without a delivery.
    pub open spec fn only(reply: ReplyView) -> OutcomeView<O> {
        OutcomeView { reply, delivery: None }
    }
}

impl<O> SessionView<O> {
    /// The session of an exchange that has not begun.
    pub open spec fn fresh() -> SessionView<O> {
        SessionView { cpe: None, observer: None, id: 0 }
    }

    /// The device that a request with the body `content` concerns: the one
    /// that the body introduces, if it holds text and an Inform was found
    /// in it, and else the one that the session is bound to.
    pub open spec fn target(self, content: ContentView) -> Option<Seq<char>> {
        match content {
            ContentView::Read { body, envelope: Some(envelope) } => if valid_utf8(body)
                && decode_utf8(body).len() > 0 && envelope.body is Inform {
                Some(envelope.body->Inform_0.device_id.serial_number)
            } else {
                self.cpe
            },
            _ => self.cpe,
        }
    }

    /// The transfer that a poll of this session's device is answered with.
    pub open spec fn due(self, acs: AcsView<O>) -> Option<TransferView<O>> {
        match self.cpe {
            Some(serial) => acs.next(serial),
            None => None,
        }
    }

    /// Offers the device its next transfer: the front of its queue leaves the
    /// queue under the session's correlation id, and the session keeps its
    /// observer. A session without a device, and a device without pending
    /// transfers, are told that nothing awaits them.
    pub open spec fn polled(self, acs: AcsView<O>) -> Step<O> {
        match self.due(acs) {
            Some(transfer) => Step {
                session: SessionView { observer: transfer.observer, ..self },
                acs: acs.dispatched(self.cpe->0),
                outcome: OutcomeView::only(ReplyView::xml(transfer.msg.with_id(self.id))),
            },
            None => Step {
                session: self,
                acs,
                outcome: OutcomeView::only(ReplyView::no_content()),
            },
        }
    }

    /// Whether the server takes note of `inform`: it does if the Inform
    /// reports where the device takes connection requests.
    pub open spec fn heeds(inform: InformView) -> bool {
        value_of(inform.parameter_list, CONNREQ_URL@) is Some
    }

    /// Takes note of an Inform: the device gets a record if it had none, the
    /// record takes the identity and the address reported, and the session
    /// is bound to the device. An Inform that the server does not heed
    /// changes nothing.
    pub open spec fn informed(self, acs: AcsView<O>, inform: InformView) -> (
        SessionView<O>,
        AcsView<O>,
    ) {
        match value_of(inform.parameter_list, CONNREQ_URL@) {
            Some(url) => (
                SessionView { cpe: Some(inform.device_id.serial_number), ..self },
                acs.informed(inform.device_id.serial_number, inform.device_id, url),
            ),
            None => (self, acs),
        }
    }

    /// Reacts to the message `envelope` of a device. An Inform that the
    /// server heeds is taken note of and acknowledged under its own
    /// correlation id, which the session keeps. A response to a transfer goes
    /// to the observer that the session holds, if it holds one, and the
    /// device is offered its next transfer. Every other message is ignored.
    pub open spec fn answered(self, acs: AcsView<O>, envelope: EnvelopeView) -> Step<O> {
        let ignored = Step {
            session: self,
            acs,
            outcome: OutcomeView::only(ReplyView::no_content()),
        };
        match envelope.body {
            BodyView::Inform(inform) => if Self::heeds(inform) {
                let (session, acs) = self.informed(acs, inform);
                Step {
                    session: SessionView { id: envelope.id, ..session },
                    acs,
                    outcome: OutcomeView::only(
                        ReplyView::xml(EnvelopeView::inform_response(envelope.id)),
                    ),
                }
            } else {
                ignored
            },
            BodyView::GetParameterValuesResponse { .. }
            | BodyView::SetParameterValuesResponse { .. } => {
                let step = (SessionView { observer: None, ..self }).polled(acs);
                Step {
                    outcome: OutcomeView {
                        delivery: match self.observer {
                            Some(observer) => Some(DeliveryView { observer, response: envelope }),
                            None => None,
                        },
                        ..step.outcome
                    },
                    ..step
                }
            },
            _ => ignored,
        }
    }

    /// Reacts to the body of a request of an admitted device. A body that
    /// could not be read, or is not text, is an error. An empty body is a
    /// poll. A body in which the codec found no message is ignored.
    pub open spec fn received(self, acs: AcsView<O>, content: ContentView) -> Result<
        Step<O>,
        SessionErrorView,
    > {
        match content {
            ContentView::Unreadable(why) => Err(SessionErrorView::Transport(why)),
            ContentView::Read { body, envelope } => if !valid_utf8(body) {
                Err(SessionErrorView::Content(ContentError::InvalidUtf8))
            } else if decode_utf8(body).len() == 0 {
                Ok(self.polled(acs))
            } else {
                match envelope {
                    Some(envelope) => Ok(self.answered(acs, envelope)),
                    None => Ok(
                        Step {
                            session: self,
                            acs,
                            outcome: OutcomeView::only(ReplyView::no_content()),
                        },
                    ),
                }
            },
        }
    }

    /// Admits a request that presents the registry's credential, and refuses
    /// every other without a change.
    pub open spec fn authorized(
        self,
        acs: AcsView<O>,
        authorization: AuthorizationView,
        content: ContentView,
    ) -> Result<Step<O>, SessionErrorView> {
        match challenge(acs.basicauth, authorization) {
            Some(reply) => Ok(Step { session: self, acs, outcome: OutcomeView::only(reply) }),
            None => self.received(acs, content),
        }
    }

    /// Handles a request: the session and the registry after it, and what
    /// the server does about it.
    pub open spec fn handled(self, acs: AcsView<O>, request: RequestView) -> Step<O> {
        if request.path == CPE_PATH@ {
            match self.authorized(acs, request.authorization, request.content) {
                Ok(step) => step,
                Err(e) => Step {
                    session: self,
                    acs,
                    outcome: OutcomeView::only(ReplyView::error(e.message())),
                },
            }
        } else {
            Step { session: self, acs, outcome: OutcomeView::only(ReplyView::forbidden()) }
        }
    }
}

impl<O> Outcome<O> {
    /// A reply without a delivery.
    pub fn only(reply: Reply) -> (r: Self)
        ensures
            r@ == OutcomeView::<O>::only(reply@),
    {
        Outcome { reply, delivery: None }
    }
}

/// The reply that tells a device that nothing awaits it.
fn no_content() -> (r: Reply)
    ensures
        r@ == ReplyView::no_content(),
{
    reply(204, String::new()).unwrap()
}

/// The reply to a request that is not admitted.
fn forbidden() -> (r: Reply)
    ensures
        r@ == ReplyView::forbidden(),
{
    reply(403, FORBIDDEN.to_owned()).unwrap()
}

/// The reply to a request without a credential.
fn unauthorized() -> (r: Reply)
    ensures
        r@ == ReplyView::unauthorized(),
{
    let mut headers: Vec<(String, String)> = Vec::new();
    headers.push(("User-Agent".to_owned(), USER_AGENT.to_owned()));
    headers.push(("WWW-Authenticate".to_owned(), CHALLENGE.to_owned()));
    let r = Reply {
        status: 401,
        headers,
        body: Payload::Text(AUTHORIZATION_REQUIRED.to_owned()),
    };
    proof {
        assert(r@.headers =~= ReplyView::unauthorized().headers);
    }
    r
}

/// The reply that refuses the credential of a request, if it is refused.
fn check_credential(basicauth: &str, authorization: &Authorization) -> (r: Option<Reply>)
    ensures
        match r {
            Some(reply) => challenge(basicauth@, authorization@) == Some(reply@),
            None => challenge(basicauth@, authorization@) is None,
        },
{
    match authorization {
        Authorization::Absent => Some(unauthorized()),
        Authorization::Unreadable => Some(forbidden()),
        Authorization::Presented(value) => {
            let expected = basicauth.to_owned();
            if *value == expected {
                None
            } else {
                Some(forbidden())
            }
        },
    }
}

/// The reply that refuses a request before its body is looked at, if it is
/// refused. Where there is none the request is admitted, and its body is
/// worth reading.
pub fn refuse(basicauth: &str, path: &str, authorization: &Authorization) -> (r: Option<Reply>)
    ensures
        match r {
            Some(reply) => refusal(basicauth@, path@, authorization@) == Some(reply@),
            None => refusal(basicauth@, path@, authorization@) is None,
        },
{
    let given = path.to_owned();
    let expected = CPE_PATH.to_owned();
    if given == expected {
        check_credential(basicauth, authorization)
    } else {
        Some(forbidden())
    }
}

/// The text of a body in which a message is looked for: there is none in a
/// body that is not text, nor in an empty one.
pub fn message_text(body: Vec<u8>) -> (r: Option<String>)
    ensures
        match r {
            Some(text) => valid_utf8(body@) && text@ == decode_utf8(body@) && text@.len() > 0,
            None => !valid_utf8(body@) || decode_utf8(body@).len() == 0,
        },
{
    match utils::content(body) {
        Ok(text) => if text.as_str().is_empty() {
            None
        } else {
            Some(text)
        },
        Err(_) => None,
    }
}

impl<O> Session<O> {
    /// The session of an exchange that has not begun.
    pub fn new() -> (r: Self)
        ensures
            r@ == SessionView::<O>::fresh(),
    {
        Session { cpe: None, observer: None, id: 0 }
    }

    /// The serial number of the device that a request with the body
    /// `content` concerns, if it concerns one.
    pub fn target(&self, content: &Content) -> (r: Option<String>)
        ensures
            match r {
                Some(serial) => self@.target(content@) == Some(serial@),
                None => self@.target(content@) is None,
            },
    {
        match content {
            Content::Read { body, envelope: Some(envelope) } => {
                match &envelope.body {
                    Body::Inform(inform) => {
                        if message_text(body.clone()).is_some() {
                            return Some(inform.device_id.serial_number.clone());
                        }
                    },
                    _ => {},
                }
            },
            _ => {},
        }
        self.cpe.clone()
    }

    /// Takes note of an Inform: registers the device if it is new, records
    /// its identity, queues the corrective transfer if the address it
    /// reports is news, and binds the session to it. Returns whether it took
    /// note: an Inform that does not report an address changes nothing.
    pub fn cpe_handle_inform(&mut self, acs: &mut Acs<O>, inform: Inform) -> (heeded: bool)
        ensures
            (final(self)@, final(acs)@) == old(self)@.informed(old(acs)@, inform@),
            heeded == SessionView::<O>::heeds(inform@),
    {
        let Inform { device_id, event: _, parameter_list } = inform;
        match parameter_list.get_value(CONNREQ_URL) {
            Some(connreq_url) => {
                let serial = device_id.serial_number.clone();
                acs.reconcile(serial.as_str(), device_id, connreq_url);
                self.cpe = Some(serial);
                true
            },
            None => false,
        }
    }

    /// Offers the device its next transfer.
    pub fn cpe_check_transfers(&mut self, acs: &mut Acs<O>) -> (r: Reply)
        ensures
            final(self)@ == old(self)@.polled(old(acs)@).session,
            final(acs)@ == old(self)@.polled(old(acs)@).acs,
            OutcomeView::<O>::only(r@) == old(self)@.polled(old(acs)@).outcome,
    {
        let next = match &self.cpe {
            Some(serial) => acs.next_transfer(serial.as_str()),
            None => None,
        };
        match next {
            Some(transfer) => {
                let Transfer { msg, observer } = transfer;
                let mut msg = msg;
                msg.id = self.id;
                self.observer = observer;
                reply_xml(msg)
            },
            None => no_content(),
        }
    }

    /// Reacts to the body of a request of an admitted device.
    pub fn handle_cpe_request(&mut self, acs: &mut Acs<O>, content: Content) -> (r: Result<
        Outcome<O>,
        SessionError,
    >)
        ensures
            match r {
                Ok(outcome) => old(self)@.received(old(acs)@, content@) == Ok::<
                    Step<O>,
                    SessionErrorView,
                >(Step { session: final(self)@, acs: final(acs)@, outcome: outcome@ }),
                Err(e) => {
                    &&& old(self)@.received(old(acs)@, content@) == Err::<
                        Step<O>,
                        SessionErrorView,
                    >(e@)
                    &&& final(self)@ == old(self)@
                    &&& final(acs)@ == old(acs)@
                },
            },
    {
        let (body, envelope) = match content {
            Content::Unreadable(why) => {
                return Err(SessionError::Transport(why));
            },
            Content::Read { body, envelope } => (body, envelope),
        };
        let text = match utils::content(body) {
            Ok(text) => text,
            Err(e) => {
                return Err(SessionError::Content(e));
            },
        };
        if text.as_str().is_empty() {
            return Ok(Outcome::only(self.cpe_check_transfers(acs)));
        }
        let envelope = match envelope {
            Some(envelope) => envelope,
            None => {
                return Ok(Outcome::only(no_content()));
            },
        };
        match envelope.body {
            Body::Inform(inform) => {
                if self.cpe_handle_inform(acs, inform) {
                    self.id = envelope.id;
                    let mut response = Envelope::new(envelope.id);
                    response.add_inform_response();
                    Ok(Outcome::only(reply_xml(response)))
                } else {
                    Ok(Outcome::only(no_content()))
                }
            },
            Body::GetParameterValuesResponse { .. } | Body::SetParameterValuesResponse { .. } => {
                let delivery = match self.observer.take() {
                    Some(observer) => Some(Delivery { observer, response: envelope }),
                    None => None,
                };
                let reply = self.cpe_check_transfers(acs);
                Ok(Outcome { reply, delivery })
            },
            _ => Ok(Outcome::only(no_content())),
        }
    }

    /// Admits a request that presents the registry's credential, and refuses
    /// every other.
    pub fn check_cpe_authorization(
        &mut self,
        acs: &mut Acs<O>,
        authorization: Authorization,
        content: Content,
    ) -> (r: Result<Outcome<O>, SessionError>)
        ensures
            match r {
                Ok(outcome) => old(self)@.authorized(old(acs)@, authorization@, content@) == Ok::<
                    Step<O>,
                    SessionErrorView,
                >(Step { session: final(self)@, acs: final(acs)@, outcome: outcome@ }),
                Err(e) => {
                    &&& old(self)@.authorized(old(acs)@, authorization@, content@) == Err::<
                        Step<O>,
                        SessionErrorView,
                    >(e@)
                    &&& final(self)@ == old(self)@
                    &&& final(acs)@ == old(acs)@
                },
            },
    {
        match check_credential(acs.basicauth(), &authorization) {
            Some(reply) => Ok(Outcome::only(reply)),
            None => self.handle_cpe_request(acs, content),
        }
    }

    /// Handles one request: routes it, checks its credential, reacts to its
    /// body, and reports a failure to read it as an internal error.
    pub fn handle(&mut self, acs: &mut Acs<O>, req: Request) -> (r: Outcome<O>)
        ensures
            old(self)@.handled(old(acs)@, req@) == (Step {
                session: final(self)@,
                acs: final(acs)@,
                outcome: r@,
            }),
    {
        let Request { path, authorization, content } = req;
        let expected = CPE_PATH.to_owned();
        if path == expected {
            match self.check_cpe_authorization(acs, authorization, content) {
                Ok(outcome) => outcome,
                Err(e) => Outcome::only(reply_error(e.message())),
            }
        } else {
            Outcome::only(forbidden())
        }
    }
}

impl RequestView {
    /// The serial number under which the request introduces a device: that
    /// of the Inform it carries, if it carries one.
    pub open spec fn introduces(self) -> Option<Seq<char>> {
        match self.content {
            ContentView::Read { body, envelope: Some(envelope) } => match envelope.body {
                BodyView::Inform(inform) => Some(inform.device_id.serial_number),
                _ => None,
            },
            _ => None,
        }
    }

    /// Whether the device shows with the request that it awaits no answer
    /// any more: it polls with an empty body, or it delivers the response
    /// that completes an exchange.
    pub open spec fn completes_exchange(self) -> bool {
        match self.content {
            ContentView::Read { body, envelope } => valid_utf8(body) && (decode_utf8(body).len()
                == 0 || (envelope matches Some(envelope) && (envelope.body
                is GetParameterValuesResponse || envelope.body is SetParameterValuesResponse))),
            ContentView::Unreadable(_) => false,
        }
    }
}

/// A request that is refused before its body is looked at is answered with
/// that refusal and changes nothing, whatever its body holds: the body of
/// such a request need not be read. A request that is admitted is answered
/// by what its body holds.
pub proof fn lemma_refusal_decides<O>(
    session: SessionView<O>,
    acs: AcsView<O>,
    request: RequestView,
)
    ensures
        match refusal(acs.basicauth, request.path, request.authorization) {
            Some(reply) => session.handled(acs, request) == (Step {
                session,
                acs,
                outcome: OutcomeView::only(reply),
            }),
            None => match session.received(acs, request.content) {
                Ok(step) => session.handled(acs, request) == step,
                Err(e) => session.handled(acs, request) == (Step {
                    session,
                    acs,
                    outcome: OutcomeView::only(ReplyView::error(e.message())),
                }),
            },
        },
{
}

/// Only the record of the device that a request concerns bears on what the
/// request does, and only that record changes: handled against a part of
/// the registry that agrees with the whole in the credential and in that
/// device, the request is answered alike, leaves the session alike and
/// leaves that device alike; and every other device of the whole stays as
/// it was. So each device can be kept, and locked, apart from the others.
pub proof fn lemma_target_alone_matters<O>(
    session: SessionView<O>,
    acs: AcsView<O>,
    part: AcsView<O>,
    request: RequestView,
)
    requires
        part.basicauth == acs.basicauth,
        session.target(request.content) matches Some(target) ==> part.knows(target) == acs.knows(
            target,
        ) && (acs.knows(target) ==> part.devices[target] == acs.devices[target]),
    ensures
        ({
            let whole = session.handled(acs, request);
            let alone = session.handled(part, request);
            &&& alone.session == whole.session
            &&& alone.outcome == whole.outcome
            &&& session.target(request.content) matches Some(target) ==> alone.acs.knows(target)
                == whole.acs.knows(target) && (whole.acs.knows(target)
                ==> alone.acs.devices[target] == whole.acs.devices[target])
            &&& forall|other: Seq<char>|
                session.target(request.content) != Some(other) ==> #[trigger] whole.acs.knows(
                    other,
                ) == acs.knows(other) && (acs.knows(other) ==> whole.acs.devices[other]
                    == acs.devices[other])
        }),
{
}

/// Whatever the request, the device is answered with one of five status codes.
pub proof fn lemma_reply_statuses<O>(session: SessionView<O>, acs: AcsView<O>, request: RequestView)
    ensures
        ({
            let status = session.handled(acs, request).outcome.reply.status;
            status == 200 || status == 204 || status == 401 || status == 403 || status == 500
        }),
{
}

/// A request leaves alone every device but the one that the session is
/// bound to and the one that the request introduces: requests of unrelated
/// devices, however they interleave, never reorder or change a device's queue.
pub proof fn lemma_request_touches_one_device<O>(
    session: SessionView<O>,
    acs: AcsView<O>,
    request: RequestView,
    serial: Seq<char>,
)
    requires
        session.cpe != Some(serial),
        request.introduces() != Some(serial),
    ensures
        session.handled(acs, request).acs.knows(serial) == acs.knows(serial),
        acs.knows(serial) ==> session.handled(acs, request).acs.devices[serial]
            == acs.devices[serial],
{
}

/// One request takes at most one transfer out of a device's queue, so that
/// a device is never sent two transfers at once: the queue of a known device
/// is after the request what it was before, or that with the corrective
/// transfer behind it, or that without its front. The front leaves only
/// when the device shows that it awaits no answer any more; the session is
/// then bound to the device, the reply carries the transfer under the
/// session's correlation id, and the one place in which a session keeps an
/// observer holds the observer of that transfer.
pub proof fn lemma_single_dispatch<O>(
    session: SessionView<O>,
    acs: AcsView<O>,
    request: RequestView,
    serial: Seq<char>,
)
    requires
        acs.knows(serial),
    ensures
        ({
            let step = session.handled(acs, request);
            let before = acs.devices[serial].transfers;
            let after = step.acs.devices[serial].transfers;
            &&& step.acs.knows(serial)
            &&& {
                ||| after == before
                ||| after == before.push(acs.devices[serial].corrective())
                ||| {
                    &&& before.len() > 0
                    &&& after == before.drop_first()
                    &&& request.completes_exchange()
                    &&& session.cpe == Some(serial)
                    &&& step.session.cpe == Some(serial)
                    &&& step.session.observer == before[0].observer
                    &&& step.outcome.reply == ReplyView::xml(before[0].msg.with_id(session.id))
                }
            }
        }),
{
}

/// Of two Informs in a row that report the same address for the same
/// device, through one session or through two, the first queues the
/// corrective transfer if the address is news, and the second queues nothing.
pub proof fn lemma_second_inform_enqueues_nothing<O>(
    session: SessionView<O>,
    other: SessionView<O>,
    acs: AcsView<O>,
    first: EnvelopeView,
    second: EnvelopeView,
    serial: Seq<char>,
    url: Seq<char>,
)
    requires
        first.body matches BodyView::Inform(inform) && inform.device_id.serial_number == serial
            && value_of(inform.parameter_list, CONNREQ_URL@) == Some(url),
        second.body matches BodyView::Inform(inform) && inform.device_id.serial_number == serial
            && value_of(inform.parameter_list, CONNREQ_URL@) == Some(url),
    ensures
        ({
            let before = acs.resolved(serial).devices[serial];
            let once = session.answered(acs, first);
            let twice = other.answered(once.acs, second);
            let again = once.session.answered(once.acs, second);
            &&& once.acs.knows(serial) && twice.acs.knows(serial)
            &&& before.diverges(url) ==> once.acs.devices[serial].transfers
                == before.transfers.push(before.corrective())
            &&& !before.diverges(url) ==> once.acs.devices[serial].transfers == before.transfers
            &&& twice.acs.devices[serial].transfers == once.acs.devices[serial].transfers
            &&& again.acs.devices[serial].transfers == once.acs.devices[serial].transfers
        }),
{
    let first_id = first.body->Inform_0.device_id;
    let second_id = second.body->Inform_0.device_id;
    lemma_inform_enqueues_once(acs, serial, first_id, second_id, url);
}

/// The registry after the requests `steps` have been handled in turn, each
/// for the session that stands beside it.
pub open spec fn after_requests<O>(
    acs: AcsView<O>,
    steps: Seq<(SessionView<O>, RequestView)>,
) -> AcsView<O>
    decreases steps.len(),
{
    if steps.len() == 0 {
        acs
    } else {
        after_requests(steps[0].0.handled(acs, steps[0].1).acs, steps.drop_first())
    }
}

/// Whether none of `steps` is a request of the device `serial`: none comes
/// from a session bound to it, and none introduces it.
pub open spec fn unrelated<O>(
    steps: Seq<(SessionView<O>, RequestView)>,
    serial: Seq<char>,
) -> bool {
    forall|i: int|
        0 <= i < steps.len() ==> (#[trigger] steps[i]).0.cpe != Some(serial)
            && steps[i].1.introduces() != Some(serial)
}

/// However many requests of other devices are handled, a device's record
/// and queue stay as they are.
pub proof fn lemma_unrelated_requests<O>(
    acs: AcsView<O>,
    steps: Seq<(SessionView<O>, RequestView)>,
    serial: Seq<char>,
)
    requires
        unrelated(steps, serial),
    ensures
        after_requests(acs, steps).knows(serial) == acs.knows(serial),
        acs.knows(serial) ==> after_requests(acs, steps).devices[serial] == acs.devices[serial],
    decreases steps.len(),
{
    if steps.len() > 0 {
        let first = steps[0];
        let rest = steps.drop_first();
        lemma_request_touches_one_device(first.0, acs, first.1, serial);
        assert(unrelated(rest, serial)) by {
            assert forall|i: int| 0 <= i < rest.len() implies (#[trigger] rest[i]).0.cpe != Some(
                serial,
            ) && rest[i].1.introduces() != Some(serial) by {
                assert(rest[i] == steps[i + 1]);
            }
        }
        lemma_unrelated_requests(first.0.handled(acs, first.1).acs, rest, serial);
    }
}

/// Transfers are sent in the order in which they were queued, whatever
/// other devices do meanwhile: of two polls of a device with two transfers
/// pending, the first is answered with the one at the front and the second
/// with the one behind it, however many requests of other devices are
/// handled in between.
pub proof fn lemma_fifo_across_requests<O>(
    session: SessionView<O>,
    acs: AcsView<O>,
    serial: Seq<char>,
    steps: Seq<(SessionView<O>, RequestView)>,
)
    requires
        session.cpe == Some(serial),
        acs.knows(serial),
        acs.devices[serial].transfers.len() >= 2,
        unrelated(steps, serial),
    ensures
        ({
            let queue = acs.devices[serial].transfers;
            let first = session.polled(acs);
            let second = first.session.polled(after_requests(first.acs, steps));
            &&& first.outcome.reply == ReplyView::xml(queue[0].msg.with_id(session.id))
            &&& second.outcome.reply == ReplyView::xml(queue[1].msg.with_id(session.id))
            &&& second.acs.devices[serial].transfers == queue.skip(2)
        }),
{
    lemma_unrelated_requests(session.polled(acs).acs, steps, serial);
}

} // verus!
