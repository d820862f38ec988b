//! The contract shared by every backend call: what is sent, what may come back,
//! and how an answer is classified.
//!
//! A call is one attempt with one outcome. There is no retry.

use crate::errors::{internal_error, service_unavailable, ErrorKind, ErrorView, McpError};
use crate::json::{decode, decoded, JsonValue};
use crate::models::{
    ChatMessageRequest, ChatMessageRequestView, MemorySearchRequest, MemorySearchRequestView,
    MemoryStoreRequest, MemoryStoreRequestView,
};
use vstd::prelude::*;

verus! {

/// The header that carries the caller's identity, inbound and outbound.
pub const USER_ID_HEADER: &'static str = "X-User-Id";

/// The status code of an answer: a number from 100 to 999.
#[derive(Clone, Copy, Debug, PartialEq, Eq)]
pub struct HttpStatus {
    code: u16,
}

impl HttpStatus {
    #[verifier::type_invariant]
    spec fn in_range(self) -> bool {
        100 <= self.code <= 999
    }

    /// The number of this status.
    pub closed spec fn value(self) -> u16 {
        self.code
    }

    /// The status with number `code`, if `code` is a status number.
    pub fn new(code: u16) -> (r: Option<HttpStatus>)
        ensures
            r is Some <==> 100 <= code <= 999,
            r is Some ==> r.unwrap().value() == code,
    {
        if 100 <= code && code <= 999 {
            Some(HttpStatus { code })
        } else {
            None
        }
    }

    /// The number of this status.
    pub fn code(&self) -> (r: u16)
        ensures
            r == self.value(),
            100 <= r <= 999,
    {
        proof {
            use_type_invariant(self);
        }
        self.code
    }

    /// Whether this status reports success, that is, lies in 200..=299.
    pub fn is_success(&self) -> (r: bool)
        ensures
            r == (200 <= self.value() <= 299),
    {
        200 <= self.code && self.code <= 299
    }
}

/// How a status number is written out in full: the number, a space, and the
/// standard reason phrase that belongs to it.
pub uninterp spec fn status_text(code: u16) -> Seq<char>;

/// Writes a status out in full.
///
/// Calls `reqwest::StatusCode::from_u16` and the `Display` of the status it
/// gives. The conversion succeeds for every number from 100 to 999; the text is
/// a function of the number alone and is named by [`status_text`].
#[verifier::external_body]
fn status_line(code: u16) -> (r: String)
    requires
        100 <= code <= 999,
    ensures
        r@ == status_text(code),
{
    match reqwest::StatusCode::from_u16(code) {
        Ok(status) => status.to_string(),
        Err(_) => String::new(),
    }
}

/// The verb of a backend call.
#[derive(Clone, Copy, Debug, PartialEq, Eq, Structural)]
pub enum Method {
    Get,
    Post,
}

/// What a backend call carries in its body.
#[derive(Clone, Debug, PartialEq, Eq)]
pub enum Payload {
    /// No body.
    Empty,
    Search(MemorySearchRequest),
    Store(MemoryStoreRequest),
    Chat(ChatMessageRequest),
}

/// A backend call that is ready to be issued.
#[derive(Clone, Debug, PartialEq, Eq)]
pub struct BackendRequest {
    pub method: Method,
    /// The full address: the backend's base address followed by the path.
    pub url: String,
    /// The identity to send in the [`USER_ID_HEADER`] header, if any.
    pub user_id: Option<String>,
    pub payload: Payload,
}

/// The content of a [`Payload`].
pub enum PayloadView {
    Empty,
    Search(MemorySearchRequestView),
    Store(MemoryStoreRequestView),
    Chat(ChatMessageRequestView),
}

impl View for Payload {
    type V = PayloadView;

    open spec fn view(&self) -> PayloadView {
        match self {
            Payload::Empty => PayloadView::Empty,
            Payload::Search(p) => PayloadView::Search(p@),
            Payload::Store(p) => PayloadView::Store(p@),
            Payload::Chat(p) => PayloadView::Chat(p@),
        }
    }
}

/// The content of a [`BackendRequest`].
pub struct BackendRequestView {
    pub method: Method,
    pub url: Seq<char>,
    pub user_id: Option<Seq<char>>,
    pub payload: PayloadView,
}

impl View for BackendRequest {
    type V = BackendRequestView;

    open spec fn view(&self) -> BackendRequestView {
        BackendRequestView {
            method: self.method,
            url: self.url@,
            user_id: self.user_id.deep_view(),
            payload: self.payload@,
        }
    }
}

/// What became of a backend call.
///
/// `B` is the form in which the answer's body is handed over: the bytes as
/// they came where the body is a JSON document, which is decoded here, or the
/// decoded message where the answer is a chat message.
#[derive(Debug, PartialEq, Eq)]
pub enum BackendReply<B> {
    /// No answer arrived: the connection, the name lookup or the transfer
    /// failed. The text says how.
    Unreachable(String),
    /// An answer arrived.
    Answered {
        status: HttpStatus,
        /// The body, or why it could not be had. It is looked at only where
        /// the call accepts `status`, so whoever issues the call may leave
        /// the body of any other answer unread.
        body: Result<B, String>,
    },
}

impl<B> BackendReply<B> {
    /// Whether an answer arrived and its status reports success.
    pub open spec fn spec_succeeded(self) -> bool {
        match self {
            BackendReply::Unreachable(_) => false,
            BackendReply::Answered { status, body } => 200 <= status.value() <= 299,
        }
    }

    /// Whether an answer arrived and its status reports success. Any failure to
    /// get an answer counts as "no".
    pub fn succeeded(&self) -> (r: bool)
        ensures
            r == self.spec_succeeded(),
    {
        match self {
            BackendReply::Unreachable(_) => false,
            BackendReply::Answered { status, body } => status.is_success(),
        }
    }
}

/// The backend calls that expect a body in the answer.
#[derive(Clone, Copy, Debug, PartialEq, Eq, Structural)]
pub enum CallKind {
    Search,
    Store,
    Chat,
}

/// The status numbers that a call of kind `kind` takes for success.
pub open spec fn accepts(kind: CallKind, code: u16) -> bool {
    code == 200 || (kind == CallKind::Store && code == 201)
}

/// The words that introduce an unexpected status in the failure of a call.
pub open spec fn status_complaint(kind: CallKind) -> Seq<char> {
    match kind {
        CallKind::Search => "Memory service returned status: "@,
        CallKind::Store => "Memory service returned status: "@,
        CallKind::Chat => "Intelligence service returned status: "@,
    }
}

/// The words that introduce an unusable body in the failure of a call.
pub open spec fn body_complaint(kind: CallKind) -> Seq<char> {
    match kind {
        CallKind::Search => "Failed to parse memory response: "@,
        CallKind::Store => "Failed to parse store response: "@,
        CallKind::Chat => "Failed to parse intelligence response: "@,
    }
}

/// The classification of `reply` for a call of kind `kind`:
/// - no answer is `ServiceUnavailable`, with the transport's own words;
/// - an answer whose status the call does not accept is `ServiceUnavailable`,
///   naming the status;
/// - an accepted answer whose body could not be had is `InternalError`;
/// - otherwise the body.
pub open spec fn classified<B>(kind: CallKind, reply: BackendReply<B>) -> Result<B, ErrorView> {
    match reply {
        BackendReply::Unreachable(why) => Err(service_unavailable(why@)),
        BackendReply::Answered { status, body } => if !accepts(kind, status.value()) {
            Err(service_unavailable(status_complaint(kind) + status_text(status.value())))
        } else {
            match body {
                Ok(b) => Ok(b),
                Err(why) => Err(internal_error(body_complaint(kind) + why@)),
            }
        },
    }
}

/// The classification of `reply` for a call of kind `kind` whose answer is a
/// JSON document: as [`classified`], and an accepted answer whose body does
/// not decode is `InternalError`, with the decoder's own words.
pub open spec fn classified_json(kind: CallKind, reply: BackendReply<Vec<u8>>) -> Result<JsonValue, ErrorView> {
    match classified(kind, reply) {
        Ok(text) => match decoded(text@) {
            Ok(answer) => Ok(answer),
            Err(why) => Err(internal_error(body_complaint(kind) + why)),
        },
        Err(e) => Err(e),
    }
}

/// Whether `result` is `expected`, the failure taken by its content.
pub open spec fn agrees<T>(result: Result<T, McpError>, expected: Result<T, ErrorView>) -> bool {
    match result {
        Ok(v) => expected == Ok::<T, ErrorView>(v),
        Err(e) => expected == Err::<T, ErrorView>(e@),
    }
}

impl CallKind {
    /// Whether a call of this kind takes `status` for success.
    pub fn accepts_status(&self, status: HttpStatus) -> (r: bool)
        ensures
            r == accepts(*self, status.value()),
    {
        let code = status.code();
        match self {
            CallKind::Store => code == 200 || code == 201,
            _ => code == 200,
        }
    }

    fn status_words(&self) -> (r: &'static str)
        ensures
            r@ == status_complaint(*self),
    {
        match self {
            CallKind::Search => "Memory service returned status: ",
            CallKind::Store => "Memory service returned status: ",
            CallKind::Chat => "Intelligence service returned status: ",
        }
    }

    fn body_words(&self) -> (r: &'static str)
        ensures
            r@ == body_complaint(*self),
    {
        match self {
            CallKind::Search => "Failed to parse memory response: ",
            CallKind::Store => "Failed to parse store response: ",
            CallKind::Chat => "Failed to parse intelligence response: ",
        }
    }

    /// Classifies the outcome of a call of this kind: the body of the answer,
    /// or the failure that the outcome amounts to.
    pub fn receive<B>(&self, reply: BackendReply<B>) -> (r: Result<B, McpError>)
        ensures
            agrees(r, classified(*self, reply)),
    {
        match reply {
            BackendReply::Unreachable(why) => Err(McpError::ServiceUnavailable(why)),
            BackendReply::Answered { status, body } => {
                if !self.accepts_status(status) {
                    let line = status_line(status.code());
                    Err(McpError::ServiceUnavailable(String::from_str(self.status_words()).concat(line.as_str())))
                } else {
                    match body {
                        Ok(b) => Ok(b),
                        Err(why) => Err(McpError::InternalError(String::from_str(self.body_words()).concat(why.as_str()))),
                    }
                }
            },
        }
    }

    /// Classifies the outcome of a call of this kind whose answer is a JSON
    /// document: the decoded document, or the failure that the outcome
    /// amounts to.
    pub fn receive_json(&self, reply: BackendReply<Vec<u8>>) -> (r: Result<JsonValue, McpError>)
        ensures
            agrees(r, classified_json(*self, reply)),
    {
        match self.receive(reply) {
            Ok(text) => match decode(text.as_slice()) {
                Ok(answer) => Ok(answer),
                Err(why) => Err(McpError::InternalError(String::from_str(self.body_words()).concat(why.as_str()))),
            },
            Err(e) => Err(e),
        }
    }
}

impl BackendRequest {
    /// The kind of this call, if its answer is expected to have a body.
    pub open spec fn spec_kind(self) -> Option<CallKind> {
        match self.payload {
            Payload::Empty => None,
            Payload::Search(_) => Some(CallKind::Search),
            Payload::Store(_) => Some(CallKind::Store),
            Payload::Chat(_) => Some(CallKind::Chat),
        }
    }

    /// The kind of this call, if its answer is expected to have a body.
    pub fn kind(&self) -> (r: Option<CallKind>)
        ensures
            r == self.spec_kind(),
    {
        match &self.payload {
            Payload::Empty => None,
            Payload::Search(_) => Some(CallKind::Search),
            Payload::Store(_) => Some(CallKind::Store),
            Payload::Chat(_) => Some(CallKind::Chat),
        }
    }

    /// Whether the body of an answer with status `status` will be looked at.
    /// Where it will not, it need not be read.
    pub fn wants_body(&self, status: HttpStatus) -> (r: bool)
        ensures
            r == match self.spec_kind() {
                Some(kind) => accepts(kind, status.value()),
                None => false,
            },
    {
        match self.kind() {
            Some(kind) => kind.accepts_status(status),
            None => false,
        }
    }
}

/// Whether `outcome` is a failure of kind `kind`.
pub open spec fn fails_as<T>(outcome: Result<T, ErrorView>, kind: ErrorKind) -> bool {
    match outcome {
        Ok(_) => false,
        Err(e) => e.kind == kind,
    }
}

/// Whatever a backend does, a call fails in one of two ways only: as
/// `ServiceUnavailable` or as `InternalError`. It never fails as
/// `InvalidRequest`, `Unauthorized` or `NotFound`.
pub proof fn backend_failures_are_of_two_kinds<B>(kind: CallKind, reply: BackendReply<B>)
    ensures
        classified(kind, reply) is Err ==> fails_as(classified(kind, reply), ErrorKind::ServiceUnavailable)
            || fails_as(classified(kind, reply), ErrorKind::InternalError),
{
}

/// A call that got no answer fails as `ServiceUnavailable`.
pub proof fn no_answer_is_unavailable<B>(kind: CallKind, why: String)
    ensures
        fails_as(classified(kind, BackendReply::<B>::Unreachable(why)), ErrorKind::ServiceUnavailable),
{
}

/// An answer whose status the call does not accept fails the call as
/// `ServiceUnavailable`, whatever its body holds.
pub proof fn refused_status_is_unavailable<B>(kind: CallKind, status: HttpStatus, body: Result<B, String>)
    requires
        !accepts(kind, status.value()),
    ensures
        fails_as(classified(kind, BackendReply::Answered { status, body }), ErrorKind::ServiceUnavailable),
{
}

/// An answer whose status the call accepts yields its body, and fails the
/// call as `InternalError` where the body could not be had.
pub proof fn accepted_status_yields_the_body<B>(kind: CallKind, status: HttpStatus, body: Result<B, String>)
    requires
        accepts(kind, status.value()),
    ensures
        body matches Ok(b) ==> classified(kind, BackendReply::Answered { status, body }) == Ok::<B, ErrorView>(b),
        body is Err ==> fails_as(classified(kind, BackendReply::Answered { status, body }), ErrorKind::InternalError),
{
}

/// The same holds where the answer is a JSON document: the call can only fail
/// as `ServiceUnavailable` or as `InternalError`.
pub proof fn json_failures_are_of_two_kinds(kind: CallKind, reply: BackendReply<Vec<u8>>)
    ensures
        classified_json(kind, reply) is Err ==> fails_as(classified_json(kind, reply), ErrorKind::ServiceUnavailable)
            || fails_as(classified_json(kind, reply), ErrorKind::InternalError),
{
}

} // verus!
