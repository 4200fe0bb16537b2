//! What the delivery service answers, and what the answer means for the caller.

use vstd::prelude::*;
use crate::client::retry_after::{retry_after_of, RetryAfter};
use crate::codec::json_parsed;
use crate::decimal::{natural_of, read_natural};
use crate::json::{Json, JsonValue, opt_model};
use crate::text::same_text;
use crate::views::{opt_view, result_view};

verus! {

/// Why the service did not deliver a message.
#[derive(Clone, Copy, Debug, PartialEq, Eq)]
pub enum ErrorReason {
    /// The request names no target.
    MissingRegistration,
    /// The registration token is not well formed.
    InvalidRegistration,
    /// The registration token is no longer in use.
    NotRegistered,
    /// The package name does not match that of the registration token.
    InvalidPackageName,
    /// The registration token belongs to another sender.
    MismatchSenderId,
    /// A parameter of the request is not valid.
    InvalidParameters,
    /// The payload is larger than the service accepts.
    MessageTooBig,
    /// The payload uses a key that the service reserves.
    InvalidDataKey,
    /// The time to live is not valid.
    InvalidTtl,
    /// The service could not handle the request in time. The request may be
    /// sent again.
    Unavailable,
    /// The service failed while it handled the request. The request may be
    /// sent again.
    InternalServerError,
    /// Too many messages were sent to the device.
    DeviceMessageRateExceeded,
    /// Too many messages were sent to the topic.
    TopicsMessageRateExceeded,
    /// The credential for the Apple push service is missing or has expired.
    InvalidApnsCredential,
}

/// The reason that a token names. The service writes a reason in one of two
/// spellings: its name as it is, or in capitals with underscores.
pub open spec fn reason_of(token: Seq<char>) -> Option<ErrorReason> {
    if token == "MissingRegistration"@ || token == "MISSING_REGISTRATION"@ {
        Some(ErrorReason::MissingRegistration)
    } else if token == "InvalidRegistration"@ || token == "INVALID_REGISTRATION"@ {
        Some(ErrorReason::InvalidRegistration)
    } else if token == "NotRegistered"@ || token == "NOT_REGISTERED"@ {
        Some(ErrorReason::NotRegistered)
    } else if token == "InvalidPackageName"@ || token == "INVALID_PACKAGE_NAME"@ {
        Some(ErrorReason::InvalidPackageName)
    } else if token == "MismatchSenderId"@ || token == "MISMATCH_SENDER_ID"@ {
        Some(ErrorReason::MismatchSenderId)
    } else if token == "InvalidParameters"@ || token == "INVALID_PARAMETERS"@ {
        Some(ErrorReason::InvalidParameters)
    } else if token == "MessageTooBig"@ || token == "MESSAGE_TOO_BIG"@ {
        Some(ErrorReason::MessageTooBig)
    } else if token == "InvalidDataKey"@ || token == "INVALID_DATA_KEY"@ {
        Some(ErrorReason::InvalidDataKey)
    } else if token == "InvalidTtl"@ || token == "INVALID_TTL"@ {
        Some(ErrorReason::InvalidTtl)
    } else if token == "Unavailable"@ || token == "UNAVAILABLE"@ {
        Some(ErrorReason::Unavailable)
    } else if token == "InternalServerError"@ || token == "INTERNAL_SERVER_ERROR"@ {
        Some(ErrorReason::InternalServerError)
    } else if token == "DeviceMessageRateExceeded"@ || token == "DEVICE_MESSAGE_RATE_EXCEEDED"@ {
        Some(ErrorReason::DeviceMessageRateExceeded)
    } else if token == "TopicsMessageRateExceeded"@ || token == "TOPICS_MESSAGE_RATE_EXCEEDED"@ {
        Some(ErrorReason::TopicsMessageRateExceeded)
    } else if token == "InvalidApnsCredential"@ || token == "INVALID_APNS_CREDENTIAL"@ {
        Some(ErrorReason::InvalidApnsCredential)
    } else {
        None
    }
}

impl ErrorReason {
    /// The reason that `token` names, if it names one.
    pub fn from_token(token: &str) -> (r: Option<ErrorReason>)
        ensures
            r == reason_of(token@),
    {
        if same_text(token, "MissingRegistration") || same_text(token, "MISSING_REGISTRATION") {
            Some(ErrorReason::MissingRegistration)
        } else if same_text(token, "InvalidRegistration") || same_text(token, "INVALID_REGISTRATION") {
            Some(ErrorReason::InvalidRegistration)
        } else if same_text(token, "NotRegistered") || same_text(token, "NOT_REGISTERED") {
            Some(ErrorReason::NotRegistered)
        } else if same_text(token, "InvalidPackageName") || same_text(token, "INVALID_PACKAGE_NAME") {
            Some(ErrorReason::InvalidPackageName)
        } else if same_text(token, "MismatchSenderId") || same_text(token, "MISMATCH_SENDER_ID") {
            Some(ErrorReason::MismatchSenderId)
        } else if same_text(token, "InvalidParameters") || same_text(token, "INVALID_PARAMETERS") {
            Some(ErrorReason::InvalidParameters)
        } else if same_text(token, "MessageTooBig") || same_text(token, "MESSAGE_TOO_BIG") {
            Some(ErrorReason::MessageTooBig)
        } else if same_text(token, "InvalidDataKey") || same_text(token, "INVALID_DATA_KEY") {
            Some(ErrorReason::InvalidDataKey)
        } else if same_text(token, "InvalidTtl") || same_text(token, "INVALID_TTL") {
            Some(ErrorReason::InvalidTtl)
        } else if same_text(token, "Unavailable") || same_text(token, "UNAVAILABLE") {
            Some(ErrorReason::Unavailable)
        } else if same_text(token, "InternalServerError") || same_text(token, "INTERNAL_SERVER_ERROR") {
            Some(ErrorReason::InternalServerError)
        } else if same_text(token, "DeviceMessageRateExceeded") || same_text(token, "DEVICE_MESSAGE_RATE_EXCEEDED") {
            Some(ErrorReason::DeviceMessageRateExceeded)
        } else if same_text(token, "TopicsMessageRateExceeded") || same_text(token, "TOPICS_MESSAGE_RATE_EXCEEDED") {
            Some(ErrorReason::TopicsMessageRateExceeded)
        } else if same_text(token, "InvalidApnsCredential") || same_text(token, "INVALID_APNS_CREDENTIAL") {
            Some(ErrorReason::InvalidApnsCredential)
        } else {
            None
        }
    }

    /// Whether the request may be sent again as it is: the failure lies with the
    /// service, not with the message.
    pub open spec fn is_retryable(self) -> bool {
        self == ErrorReason::Unavailable || self == ErrorReason::InternalServerError
    }

    /// Whether the request may be sent again as it is.
    pub fn retryable(&self) -> (r: bool)
        ensures
            r == self.is_retryable(),
    {
        match self {
            ErrorReason::Unavailable => true,
            ErrorReason::InternalServerError => true,
            _ => false,
        }
    }
}

/// What the service answers to a message that it accepted.
#[derive(Debug, PartialEq, Eq)]
pub struct FcmResponse {
    /// The identifier of the message, as `projects/*/messages/{message_id}`.
    pub name: Option<String>,
    /// The number of the message.
    pub message_id: Option<u64>,
    /// Why the message was not delivered, although the request succeeded.
    pub error: Option<ErrorReason>,
}

/// The model of an [`FcmResponse`].
pub ghost struct FcmResponseView {
    pub name: Option<Seq<char>>,
    pub message_id: Option<u64>,
    pub error: Option<ErrorReason>,
}

impl View for FcmResponse {
    type V = FcmResponseView;

    open spec fn view(&self) -> FcmResponseView {
        FcmResponseView { name: opt_view(self.name), message_id: self.message_id, error: self.error }
    }
}

/// Why a message was not sent, or not accepted.
#[derive(Debug, PartialEq, Eq)]
pub enum FcmError {
    /// The service does not accept the credentials. They have to be renewed
    /// before the request is sent again.
    Unauthorized,
    /// The service does not accept the message, or its answer cannot be
    /// understood. The request is not to be sent again as it is.
    InvalidMessage(String),
    /// The service failed. The request may be sent again, after the given hint
    /// where there is one.
    ServerError(Option<RetryAfter>),
    /// No access token could be had for the credentials.
    AuthToken(String),
    /// The project could not be told from the credentials, or the request could
    /// not be prepared for another reason.
    ProjectIdError(String),
}

/// The model of an [`FcmError`].
pub ghost enum FcmErrorView {
    Unauthorized,
    InvalidMessage(Seq<char>),
    ServerError(Option<RetryAfter>),
    AuthToken(Seq<char>),
    ProjectIdError(Seq<char>),
}

impl View for FcmError {
    type V = FcmErrorView;

    open spec fn view(&self) -> FcmErrorView {
        match self {
            FcmError::Unauthorized => FcmErrorView::Unauthorized,
            FcmError::InvalidMessage(text) => FcmErrorView::InvalidMessage(text@),
            FcmError::ServerError(hint) => FcmErrorView::ServerError(*hint),
            FcmError::AuthToken(text) => FcmErrorView::AuthToken(text@),
            FcmError::ProjectIdError(text) => FcmErrorView::ProjectIdError(text@),
        }
    }
}

/// An optional text member of an object: absent where the object has no member
/// of that name or has `null` there. The outer `None` says that the member is
/// there and is no text.
pub open spec fn optional_text(doc: JsonValue, key: Seq<char>) -> Option<Option<Seq<char>>> {
    match doc.member(key) {
        None => Some(None),
        Some(JsonValue::Null) => Some(None),
        Some(JsonValue::String(s)) => Some(Some(s)),
        Some(_) => None,
    }
}

/// An optional member that holds a number in decimal notation. The outer `None`
/// says that the member is there and is no such number.
pub open spec fn optional_natural(doc: JsonValue, key: Seq<char>) -> Option<Option<u64>> {
    match doc.member(key) {
        None => Some(None),
        Some(JsonValue::Null) => Some(None),
        Some(JsonValue::Number(n)) => match natural_of(n) {
            Some(v) => Some(Some(v)),
            None => None,
        },
        Some(_) => None,
    }
}

/// An optional member that names a reason. The outer `None` says that the
/// member is there and names none.
pub open spec fn optional_reason(doc: JsonValue, key: Seq<char>) -> Option<Option<ErrorReason>> {
    match doc.member(key) {
        None => Some(None),
        Some(JsonValue::Null) => Some(None),
        Some(JsonValue::String(s)) => match reason_of(s) {
            Some(r) => Some(Some(r)),
            None => None,
        },
        Some(_) => None,
    }
}

/// The response that a document holds, if it is an object whose members
/// `name`, `message_id` and `error`, as far as they are there, are a text, a
/// number and a reason. Other members are passed over.
pub open spec fn response_of(doc: JsonValue) -> Option<FcmResponseView> {
    if doc is Object {
        match (
            optional_text(doc, "name"@),
            optional_natural(doc, "message_id"@),
            optional_reason(doc, "error"@),
        ) {
            (Some(name), Some(message_id), Some(error)) => Some(
                FcmResponseView { name, message_id, error },
            ),
            _ => None,
        }
    } else {
        None
    }
}

/// What an answer of the service means.
///
/// - Status 200: the response that the body holds; but a failure of the service,
///   with the hint, if the response names a reason for which the request may be sent
///   again; and a message that was not understood, if the body holds no response.
/// - Status 401: the credentials are not accepted.
/// - Status 400: the message is not accepted; the body says why.
/// - Status 500 to 599: a failure of the service, with the hint.
/// - Any other status: an unknown error.
pub open spec fn classification(
    status: u16,
    hint: Option<RetryAfter>,
    document: Option<JsonValue>,
    body: Seq<char>,
) -> Result<FcmResponseView, FcmErrorView> {
    if status == 200 {
        match document {
            Some(doc) => match response_of(doc) {
                Some(response) => {
                    if response.error matches Some(reason) && reason.is_retryable() {
                        Err(FcmErrorView::ServerError(hint))
                    } else {
                        Ok(response)
                    }
                },
                None => Err(FcmErrorView::InvalidMessage("Malformed Response"@)),
            },
            None => Err(FcmErrorView::InvalidMessage("Malformed Response"@)),
        }
    } else if status == 401 {
        Err(FcmErrorView::Unauthorized)
    } else if status == 400 {
        Err(FcmErrorView::InvalidMessage(body))
    } else if 500 <= status <= 599 {
        Err(FcmErrorView::ServerError(hint))
    } else {
        Err(FcmErrorView::InvalidMessage("Unknown Error"@))
    }
}

/// The hint of an optional `Retry-After` header: none where there is no header,
/// and none where its value is neither a number of seconds nor a date.
pub open spec fn hint_of(header: Option<Seq<char>>) -> Option<RetryAfter> {
    match header {
        Some(value) => retry_after_of(value),
        None => None,
    }
}

/// Status 401 means that the credentials are not accepted, whatever the body
/// and the headers hold.
pub proof fn law_unauthorized(hint: Option<RetryAfter>, document: Option<JsonValue>, body: Seq<char>)
    ensures
        classification(401, hint, document, body) == Err::<FcmResponseView, FcmErrorView>(
            FcmErrorView::Unauthorized,
        ),
{
}

/// Status 400 means that the message is not accepted, and the error holds the
/// body as it is.
pub proof fn law_bad_request(hint: Option<RetryAfter>, document: Option<JsonValue>, body: Seq<char>)
    ensures
        classification(400, hint, document, body) == Err::<FcmResponseView, FcmErrorView>(
            FcmErrorView::InvalidMessage(body),
        ),
{
}

/// A status from 500 to 599 means a failure of the service, and the error holds
/// the hint of the `Retry-After` header: none where there is no header.
pub proof fn law_server_error(
    status: u16,
    header: Option<Seq<char>>,
    document: Option<JsonValue>,
    body: Seq<char>,
)
    requires
        500 <= status <= 599,
    ensures
        classification(status, hint_of(header), document, body) == Err::<
            FcmResponseView,
            FcmErrorView,
        >(FcmErrorView::ServerError(hint_of(header))),
        header is None ==> classification(status, hint_of(header), document, body) == Err::<
            FcmResponseView,
            FcmErrorView,
        >(FcmErrorView::ServerError(None)),
{
}

/// A response that names a reason for which the request may be sent again is a
/// failure of the service, although the status is 200.
pub proof fn law_embedded_failure(
    hint: Option<RetryAfter>,
    doc: JsonValue,
    body: Seq<char>,
)
    requires
        response_of(doc) matches Some(response) && (response.error == Some(ErrorReason::Unavailable)
            || response.error == Some(ErrorReason::InternalServerError)),
    ensures
        classification(200, hint, Some(doc), body) == Err::<FcmResponseView, FcmErrorView>(
            FcmErrorView::ServerError(hint),
        ),
{
}

/// Nothing but a response that the body of an answer with status 200 holds is a
/// success: a body that holds none never passes for one.
pub proof fn law_no_silent_success(
    status: u16,
    hint: Option<RetryAfter>,
    document: Option<JsonValue>,
    body: Seq<char>,
)
    ensures
        classification(status, hint, document, body) matches Ok(response) ==> {
            &&& status == 200
            &&& document is Some
            &&& response_of(document->0) == Some(response)
            &&& !(response.error matches Some(reason) && reason.is_retryable())
        },
{
}

/// An answer is never classified as a failure of the preparation of the
/// request: the error says that the credentials are not accepted, that the
/// message is not accepted, or that the service failed.
pub proof fn law_classified_errors(
    status: u16,
    hint: Option<RetryAfter>,
    document: Option<JsonValue>,
    body: Seq<char>,
)
    ensures
        classification(status, hint, document, body) matches Err(error) ==> {
            ||| error is Unauthorized
            ||| error is InvalidMessage
            ||| error == FcmErrorView::ServerError(hint)
        },
{
}

/// Reads an optional text member.
fn read_text(doc: &Json, key: &str) -> (r: Option<Option<String>>)
    ensures
        r matches Some(v) ==> optional_text(doc@, key@) == Some(opt_view(v)),
        r is None ==> optional_text(doc@, key@) is None,
{
    match doc.get(key) {
        None => Some(None),
        Some(Json::Null) => Some(None),
        Some(Json::String(s)) => Some(Some(s.clone())),
        Some(_) => None,
    }
}

/// Reads an optional member that holds a number.
fn read_number(doc: &Json, key: &str) -> (r: Option<Option<u64>>)
    ensures
        r == optional_natural(doc@, key@),
{
    match doc.get(key) {
        None => Some(None),
        Some(Json::Null) => Some(None),
        Some(Json::Number(n)) => match read_natural(n.as_str()) {
            Some(v) => Some(Some(v)),
            None => None,
        },
        Some(_) => None,
    }
}

/// Reads an optional member that names a reason.
fn read_reason(doc: &Json, key: &str) -> (r: Option<Option<ErrorReason>>)
    ensures
        r == optional_reason(doc@, key@),
{
    match doc.get(key) {
        None => Some(None),
        Some(Json::Null) => Some(None),
        Some(Json::String(s)) => match ErrorReason::from_token(s.as_str()) {
            Some(reason) => Some(Some(reason)),
            None => None,
        },
        Some(_) => None,
    }
}

impl FcmResponse {
    /// The response that `doc` holds, if it holds one.
    pub fn from_json(doc: &Json) -> (r: Option<FcmResponse>)
        ensures
            opt_view(r) == response_of(doc@),
    {
        match doc {
            Json::Object(_) => {},
            _ => {
                return None;
            },
        }
        let name = match read_text(doc, "name") {
            Some(v) => v,
            None => {
                return None;
            },
        };
        let message_id = match read_number(doc, "message_id") {
            Some(v) => v,
            None => {
                return None;
            },
        };
        let error = match read_reason(doc, "error") {
            Some(v) => v,
            None => {
                return None;
            },
        };
        Some(FcmResponse { name, message_id, error })
    }
}

/// Says what an answer of the service means, given the document that its body
/// holds.
pub fn interpret(status: u16, hint: Option<RetryAfter>, document: Option<&Json>, body: &str) -> (r:
    Result<FcmResponse, FcmError>)
    ensures
        result_view(r) == classification(status, hint, opt_model(document), body@),
{
    if status == 200 {
        let response = match document {
            Some(doc) => FcmResponse::from_json(doc),
            None => None,
        };
        match response {
            Some(response) => {
                let again = match &response.error {
                    Some(reason) => reason.retryable(),
                    None => false,
                };
                if again {
                    Err(FcmError::ServerError(hint))
                } else {
                    Ok(response)
                }
            },
            None => Err(FcmError::InvalidMessage("Malformed Response".to_owned())),
        }
    } else if status == 401 {
        Err(FcmError::Unauthorized)
    } else if status == 400 {
        Err(FcmError::InvalidMessage(body.to_owned()))
    } else if 500 <= status && status <= 599 {
        Err(FcmError::ServerError(hint))
    } else {
        Err(FcmError::InvalidMessage("Unknown Error".to_owned()))
    }
}

/// Says what an answer of the service means: its status, the value of its
/// `Retry-After` header if it has one, and its body.
pub fn classify(status: u16, retry_after: Option<&str>, body: &str) -> (r: Result<
    FcmResponse,
    FcmError,
>)
    ensures
        result_view(r) == classification(
            status,
            hint_of(opt_view(retry_after)),
            json_parsed(body@),
            body@,
        ),
{
    let hint = match retry_after {
        Some(value) => RetryAfter::parse(value),
        None => None,
    };
    if status == 200 {
        match Json::parse(body) {
            Ok(doc) => interpret(status, hint, Some(&doc), body),
            Err(_) => interpret(status, hint, None, body),
        }
    } else {
        interpret(status, hint, None, body)
    }
}

} // verus!
