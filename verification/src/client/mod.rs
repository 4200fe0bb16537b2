//! The exchange with the delivery service: what is sent, and what the answer
//! means.
//!
//! Nothing here touches the network or the disk. [`start`] and [`step`] say what
//! is to be done next; the caller does it and reports what came of it.

pub mod response;
pub mod retry_after;

use vstd::prelude::*;
use crate::client::response::{
    classification, classify, FcmError, FcmErrorView, FcmResponse, FcmResponseView, hint_of,
};
use crate::codec::{json_parsed, json_text};
use crate::json::{Json, JsonValue};
use crate::message::{Message, MessageWrapper};
use crate::text::{second_piece, second_word};
use crate::views::{opt_view, result_view};
use crate::wire::{Block, block_field, object_of, WireBlock};

verus! {

/// A `POST` request.
#[derive(Debug, PartialEq, Eq)]
pub struct HttpRequest {
    pub url: String,
    /// The headers, each as a name and a value.
    pub headers: Vec<(String, String)>,
    pub body: Vec<u8>,
}

/// The model of an [`HttpRequest`].
pub ghost struct HttpRequestView {
    pub url: Seq<char>,
    pub headers: Seq<(Seq<char>, Seq<char>)>,
    pub body: Seq<u8>,
}

impl View for HttpRequest {
    type V = HttpRequestView;

    open spec fn view(&self) -> HttpRequestView {
        HttpRequestView {
            url: self.url@,
            headers: Seq::new(self.headers@.len(), |i: int| (self.headers@[i].0@, self.headers@[i].1@)),
            body: self.body@,
        }
    }
}

/// The document that is sent for a message: an object with the one member
/// `message`, which holds the message's own object.
pub open spec fn envelope_of(message: &Message) -> JsonValue {
    object_of(Seq::empty().push(block_field("message"@, Some(message.fields()))))
}

/// The raw access token in what the credential capability returns, which is a
/// scheme word, white space and the token: the second of the pieces that white
/// space cuts it into.
pub open spec fn bearer_of(token: Seq<char>) -> Option<Seq<char>> {
    second_piece(token)
}

/// The project identifier in a credential document: the text of its member
/// `project_id`.
pub open spec fn project_id_in(doc: JsonValue) -> Option<Seq<char>> {
    match doc.member("project_id"@) {
        Some(JsonValue::String(id)) => Some(id),
        _ => None,
    }
}

/// The address to which the messages of a project are sent.
pub open spec fn endpoint_of(project_id: Seq<char>) -> Seq<char> {
    "https://fcm.googleapis.com/v1/projects/"@ + project_id + "/messages:send"@
}

/// The request that sends a payload for a project: to the project's endpoint,
/// with the payload declared as JSON and the token as bearer credential.
pub open spec fn request_of(project_id: Seq<char>, token: Seq<char>, payload: Seq<u8>) -> HttpRequestView {
    HttpRequestView {
        url: endpoint_of(project_id),
        headers: seq![
            ("Content-Type"@, "application/json"@),
            ("Authorization"@, "Bearer "@ + token),
        ],
        body: payload,
    }
}

/// The JSON text that is sent for a message.
pub fn payload(message: &Message) -> (bytes: Vec<u8>)
    ensures
        bytes@ == json_text(envelope_of(message)),
{
    let wire = message.finalize();
    let wrapper = MessageWrapper::new(&wire);
    wrapper.to_json().to_bytes()
}

/// What the first acquisition of an access token means for a new client: the
/// client can be used if there is a token, and the credentials do not work if
/// there is none.
pub fn first_token(outcome: Result<String, String>) -> (r: Result<(), FcmError>)
    ensures
        outcome is Ok ==> r is Ok,
        outcome matches Err(why) ==> r matches Err(error) && error@ == FcmErrorView::AuthToken(why@),
{
    match outcome {
        Ok(_) => Ok(()),
        Err(why) => Err(FcmError::AuthToken(why)),
    }
}

/// The raw access token in what the credential capability returns.
pub fn bearer_token(token: &str) -> (r: Option<String>)
    ensures
        opt_view(r) == bearer_of(token@),
{
    second_word(token)
}

/// The project identifier that a credential document holds.
pub fn project_id_of(doc: &Json) -> (r: Result<String, String>)
    ensures
        result_view(r) == match project_id_in(doc@) {
            Some(id) => Ok::<Seq<char>, Seq<char>>(id),
            None => Err("could not get project_id"@),
        },
{
    match doc.get("project_id") {
        Some(Json::String(id)) => Ok(id.clone()),
        _ => Err("could not get project_id".to_owned()),
    }
}

/// The project identifier in the text of a credential document.
///
/// Where the text is no JSON document, the error says why.
pub fn project_id(credentials: &str) -> (r: Result<String, String>)
    ensures
        json_parsed(credentials@) matches Some(doc) ==> result_view(r) == match project_id_in(doc) {
            Some(id) => Ok::<Seq<char>, Seq<char>>(id),
            None => Err("could not get project_id"@),
        },
        json_parsed(credentials@) is None ==> r is Err,
{
    match Json::parse(credentials) {
        Ok(doc) => project_id_of(&doc),
        Err(why) => Err(why),
    }
}

/// The request that sends `payload` for a project.
pub fn request(project_id: &str, token: &str, payload: Vec<u8>) -> (r: HttpRequest)
    ensures
        r@ == request_of(project_id@, token@, payload@),
{
    let mut url = "https://fcm.googleapis.com/v1/projects/".to_owned();
    url.append(project_id);
    url.append("/messages:send");
    let mut bearer = "Bearer ".to_owned();
    bearer.append(token);
    let mut headers: Vec<(String, String)> = Vec::new();
    headers.push(("Content-Type".to_owned(), "application/json".to_owned()));
    headers.push(("Authorization".to_owned(), bearer));
    let r = HttpRequest { url, headers, body: payload };
    assert(r@.headers =~= request_of(project_id@, token@, payload@).headers);
    r
}

/// How far the sending of a message has come.
#[derive(Debug)]
pub enum SendState {
    /// The payload is written; the access token is awaited.
    AwaitingToken { payload: Vec<u8> },
    /// The token is there; the credential document is awaited.
    AwaitingCredentials { payload: Vec<u8>, token: String },
    /// The request is on its way; the service's answer is awaited.
    AwaitingResponse,
    /// The outcome has been returned.
    Finished,
}

/// What the caller reports.
#[derive(Debug)]
pub enum SendEvent {
    /// What the credential capability returned for an access token: the token
    /// behind its scheme word, or why there is none.
    Token(Result<String, String>),
    /// The text of the credential document, or why it could not be read.
    Credentials(Result<String, String>),
    /// The answer of the service: its status, the value of its `Retry-After`
    /// header if it has one, and its body.
    Response { status: u16, retry_after: Option<String>, body: String },
    /// The request could not be sent, or no answer came.
    TransportFailure,
}

/// What the caller is to do next.
#[derive(Debug)]
pub enum SendAction {
    /// Ask the credential capability for an access token.
    AcquireToken,
    /// Read the credential document.
    ReadCredentials,
    /// Send this request, once.
    Dispatch(HttpRequest),
    /// Return this outcome.
    Return(Result<FcmResponse, FcmError>),
}

/// The model of a [`SendState`].
pub ghost enum SendStateView {
    AwaitingToken { payload: Seq<u8> },
    AwaitingCredentials { payload: Seq<u8>, token: Seq<char> },
    AwaitingResponse,
    Finished,
}

/// The model of a [`SendEvent`].
pub ghost enum SendEventView {
    Token(Result<Seq<char>, Seq<char>>),
    Credentials(Result<Seq<char>, Seq<char>>),
    Response { status: u16, retry_after: Option<Seq<char>>, body: Seq<char> },
    TransportFailure,
}

/// The model of a [`SendAction`].
pub ghost enum SendActionView {
    AcquireToken,
    ReadCredentials,
    Dispatch(HttpRequestView),
    Return(Result<FcmResponseView, FcmErrorView>),
}

impl View for SendState {
    type V = SendStateView;

    open spec fn view(&self) -> SendStateView {
        match self {
            SendState::AwaitingToken { payload } => SendStateView::AwaitingToken { payload: payload@ },
            SendState::AwaitingCredentials { payload, token } => SendStateView::AwaitingCredentials {
                payload: payload@,
                token: token@,
            },
            SendState::AwaitingResponse => SendStateView::AwaitingResponse,
            SendState::Finished => SendStateView::Finished,
        }
    }
}

impl View for SendEvent {
    type V = SendEventView;

    open spec fn view(&self) -> SendEventView {
        match self {
            SendEvent::Token(r) => SendEventView::Token(result_view(*r)),
            SendEvent::Credentials(r) => SendEventView::Credentials(result_view(*r)),
            SendEvent::Response { status, retry_after, body } => SendEventView::Response {
                status: *status,
                retry_after: opt_view(*retry_after),
                body: body@,
            },
            SendEvent::TransportFailure => SendEventView::TransportFailure,
        }
    }
}

impl View for SendAction {
    type V = SendActionView;

    open spec fn view(&self) -> SendActionView {
        match self {
            SendAction::AcquireToken => SendActionView::AcquireToken,
            SendAction::ReadCredentials => SendActionView::ReadCredentials,
            SendAction::Dispatch(request) => SendActionView::Dispatch(request@),
            SendAction::Return(outcome) => SendActionView::Return(result_view(*outcome)),
        }
    }
}

/// The sending ends with the failure `error`.
pub open spec fn fails_with(next: SendStateView, action: SendActionView, error: FcmErrorView) -> bool {
    next == SendStateView::Finished && action == SendActionView::Return(Err(error))
}

/// Whether `next` and `action` are what follows on `event` in `state`.
///
/// A message is sent in four steps, each once and in this order: the access token
/// is acquired, the project is told from the credential document, the request is
/// built, and it is dispatched and its answer interpreted. The first failure ends
/// the sending. Nothing is tried twice.
pub open spec fn follows(
    state: SendStateView,
    event: SendEventView,
    next: SendStateView,
    action: SendActionView,
) -> bool {
    match (state, event) {
        (SendStateView::AwaitingToken { payload }, SendEventView::Token(Ok(token))) => match bearer_of(
            token,
        ) {
            Some(raw) => next == (SendStateView::AwaitingCredentials { payload, token: raw }) && action
                == SendActionView::ReadCredentials,
            None => fails_with(
                next,
                action,
                FcmErrorView::ProjectIdError("could not get access token"@),
            ),
        },
        (SendStateView::AwaitingToken { .. }, SendEventView::Token(Err(_))) => fails_with(
            next,
            action,
            FcmErrorView::ProjectIdError("could not get access token"@),
        ),
        (
            SendStateView::AwaitingCredentials { payload, token },
            SendEventView::Credentials(Ok(text)),
        ) => match json_parsed(text) {
            Some(doc) => match project_id_in(doc) {
                Some(id) => next == SendStateView::AwaitingResponse && action
                    == SendActionView::Dispatch(request_of(id, token, payload)),
                None => fails_with(
                    next,
                    action,
                    FcmErrorView::ProjectIdError("could not get project_id"@),
                ),
            },
            None => next == SendStateView::Finished && action matches SendActionView::Return(
                Err(FcmErrorView::ProjectIdError(_)),
            ),
        },
        (SendStateView::AwaitingCredentials { .. }, SendEventView::Credentials(Err(why))) => fails_with(
            next,
            action,
            FcmErrorView::ProjectIdError(why),
        ),
        (
            SendStateView::AwaitingResponse,
            SendEventView::Response { status, retry_after, body },
        ) => next == SendStateView::Finished && action == SendActionView::Return(
            classification(status, hint_of(retry_after), json_parsed(body), body),
        ),
        (SendStateView::AwaitingResponse, SendEventView::TransportFailure) => fails_with(
            next,
            action,
            FcmErrorView::ServerError(None),
        ),
        _ => fails_with(next, action, FcmErrorView::ProjectIdError("unexpected event"@)),
    }
}

/// The number of steps that are left at most in a state.
pub open spec fn steps_left(state: SendStateView) -> nat {
    match state {
        SendStateView::AwaitingToken { .. } => 3,
        SendStateView::AwaitingCredentials { .. } => 2,
        SendStateView::AwaitingResponse => 1,
        SendStateView::Finished => 0,
    }
}

/// Every step takes the sending forward or ends it, so that nothing is done
/// twice: an outcome is returned exactly when the sending is finished, and a
/// request is dispatched only in the step from the credentials to the answer,
/// which is taken once at most.
pub proof fn law_sending_advances(
    state: SendStateView,
    event: SendEventView,
    next: SendStateView,
    action: SendActionView,
)
    requires
        follows(state, event, next, action),
    ensures
        next is Finished || steps_left(next) + 1 == steps_left(state),
        action is Return <==> next is Finished,
        action is Dispatch ==> state is AwaitingCredentials && next is AwaitingResponse,
        action is ReadCredentials ==> state is AwaitingToken && next is AwaitingCredentials,
        !(action is AcquireToken),
{
}

/// The failure `error`, as the end of the sending.
fn fail(error: FcmError) -> (r: (SendState, SendAction))
    ensures
        fails_with(r.0@, r.1@, error@),
{
    (SendState::Finished, SendAction::Return(Err(error)))
}

/// Begins the sending of `message`: writes its payload and asks for the access
/// token.
pub fn start(message: &Message) -> (r: (SendState, SendAction))
    ensures
        r.0@ == (SendStateView::AwaitingToken { payload: json_text(envelope_of(message)) }),
        r.1@ == SendActionView::AcquireToken,
{
    (SendState::AwaitingToken { payload: payload(message) }, SendAction::AcquireToken)
}

/// Takes the sending one step further: from a state and what the caller
/// reports, the next state and what the caller is to do.
pub fn step(state: SendState, event: SendEvent) -> (r: (SendState, SendAction))
    ensures
        follows(state@, event@, r.0@, r.1@),
{
    match (state, event) {
        (SendState::AwaitingToken { payload }, SendEvent::Token(Ok(token))) => {
            match bearer_token(token.as_str()) {
                Some(raw) => (
                    SendState::AwaitingCredentials { payload, token: raw },
                    SendAction::ReadCredentials,
                ),
                None => fail(FcmError::ProjectIdError("could not get access token".to_owned())),
            }
        },
        (SendState::AwaitingToken { .. }, SendEvent::Token(Err(_))) => fail(
            FcmError::ProjectIdError("could not get access token".to_owned()),
        ),
        (SendState::AwaitingCredentials { payload, token }, SendEvent::Credentials(Ok(text))) => {
            match project_id(text.as_str()) {
                Ok(id) => (
                    SendState::AwaitingResponse,
                    SendAction::Dispatch(request(id.as_str(), token.as_str(), payload)),
                ),
                Err(why) => fail(FcmError::ProjectIdError(why)),
            }
        },
        (SendState::AwaitingCredentials { .. }, SendEvent::Credentials(Err(why))) => fail(
            FcmError::ProjectIdError(why),
        ),
        (SendState::AwaitingResponse, SendEvent::Response { status, retry_after, body }) => {
            let header = match &retry_after {
                Some(value) => Some(value.as_str()),
                None => None,
            };
            (SendState::Finished, SendAction::Return(classify(status, header, body.as_str())))
        },
        (SendState::AwaitingResponse, SendEvent::TransportFailure) => fail(FcmError::ServerError(None)),
        _ => fail(FcmError::ProjectIdError("unexpected event".to_owned())),
    }
}

} // verus!
