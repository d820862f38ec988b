//! The two backends, each as a pair of steps per call: shape the request, then
//! read the reply.
//!
//! A client holds nothing but the address of its backend, so one client can
//! serve any number of calls at once.

use crate::backend::{
    classified, classified_json, status_complaint, status_text, BackendReply, BackendRequest,
    BackendRequestView, CallKind, HttpStatus, Method, Payload, PayloadView,
};
use crate::errors::{internal_error, service_unavailable, ErrorKind, ErrorView, McpError};
use crate::json::{decoded, JsonNumber, JsonValue};
use crate::models::{
    ChatMessageRequest, ChatMessageRequestView, ChatMessageResponse, MemoryItem, MemoryItemView,
    MemorySearchRequest, MemorySearchRequestView, MemoryStoreRequest, MemoryStoreRequestView,
};
use vstd::prelude::*;

verus! {

/// The call that asks the backend at `base` whether it is alive.
pub open spec fn probe_call(base: Seq<char>) -> BackendRequestView {
    BackendRequestView {
        method: Method::Get,
        url: base + "/health"@,
        user_id: None,
        payload: PayloadView::Empty,
    }
}

/// The call that searches the memory backend at `base` on behalf of `user_id`.
pub open spec fn search_call(
    base: Seq<char>,
    user_id: Seq<char>,
    query: Seq<char>,
    limit: Option<usize>,
) -> BackendRequestView {
    BackendRequestView {
        method: Method::Post,
        url: base + "/memory/search"@,
        user_id: Some(user_id),
        payload: PayloadView::Search(MemorySearchRequestView { query, limit, tier: None }),
    }
}

/// The call that stores one entry in the memory backend at `base` on behalf of
/// `user_id`. Every entry written this way goes to the long-term tier.
pub open spec fn store_call(
    base: Seq<char>,
    user_id: Seq<char>,
    memory_type: Seq<char>,
    input_context: Seq<char>,
    output_response: Option<Seq<char>>,
    outcome: Option<Seq<char>>,
    tags: Option<Seq<Seq<char>>>,
) -> BackendRequestView {
    BackendRequestView {
        method: Method::Post,
        url: base + "/memory/store"@,
        user_id: Some(user_id),
        payload: PayloadView::Store(
            MemoryStoreRequestView {
                memory_type,
                input_context,
                output_response,
                outcome,
                tier: "ltm"@,
                tags,
            },
        ),
    }
}

/// The call that sends one message to the intelligence backend at `base` on
/// behalf of `user_id`.
pub open spec fn chat_call(
    base: Seq<char>,
    user_id: Seq<char>,
    message: Seq<char>,
    session_id: Option<uuid::Uuid>,
    use_memory: bool,
) -> BackendRequestView {
    BackendRequestView {
        method: Method::Post,
        url: base + "/chat/message"@,
        user_id: Some(user_id),
        payload: PayloadView::Chat(ChatMessageRequestView { message, session_id, use_memory }),
    }
}

/// `text`, or `default` where there is none.
pub open spec fn text_or(text: Option<Seq<char>>, default: Seq<char>) -> Seq<char> {
    match text {
        Some(t) => t,
        None => default,
    }
}

/// The normal form of one search result. A field that is missing, or is not of
/// the expected type, takes its default: the empty text, the tier `ltm`, the
/// score zero.
pub open spec fn memory_item_of(entry: JsonValue) -> MemoryItemView {
    MemoryItemView {
        id: text_or(entry.text_at("id"@), Seq::empty()),
        content: "Input: "@ + text_or(entry.text_at("input_context"@), Seq::empty()) + "\nOutput: "@
            + text_or(entry.text_at("output_response"@), Seq::empty()),
        tier: text_or(entry.text_at("tier"@), "ltm"@),
        confidence_score: match entry.number_at("confidence_score"@) {
            Some(n) => n,
            None => JsonNumber { bits: 0 },
        },
        created_at: text_or(entry.text_at("created_at"@), Seq::empty()),
    }
}

/// What a decoded search answer holds: the normal form of each entry of its
/// `results` list, in order. An answer without such a list is malformed, which
/// is not the same as an answer with an empty one.
pub open spec fn memories_of(answer: JsonValue) -> Result<Seq<MemoryItemView>, ErrorView> {
    match answer.items_at("results"@) {
        Some(entries) => Ok(Seq::new(entries.len(), |i: int| memory_item_of(entries[i]))),
        None => Err(internal_error("Invalid memory response format"@)),
    }
}

/// What a search call amounts to, given its reply.
pub open spec fn search_outcome(reply: BackendReply<Vec<u8>>) -> Result<Seq<MemoryItemView>, ErrorView> {
    match classified_json(CallKind::Search, reply) {
        Ok(answer) => memories_of(answer),
        Err(e) => Err(e),
    }
}

/// The identifier in a decoded store answer, or the empty text where the
/// answer names none.
pub open spec fn stored_id_of(answer: JsonValue) -> Seq<char> {
    text_or(answer.text_at("id"@), Seq::empty())
}

/// What a store call amounts to, given its reply.
pub open spec fn store_outcome(reply: BackendReply<Vec<u8>>) -> Result<Seq<char>, ErrorView> {
    match classified_json(CallKind::Store, reply) {
        Ok(answer) => Ok(stored_id_of(answer)),
        Err(e) => Err(e),
    }
}

/// Whether `result` is `expected`, each side taken by its content.
pub open spec fn items_agree(
    result: Result<Vec<MemoryItem>, McpError>,
    expected: Result<Seq<MemoryItemView>, ErrorView>,
) -> bool {
    match result {
        Ok(items) => expected == Ok::<Seq<MemoryItemView>, ErrorView>(items.deep_view()),
        Err(e) => expected == Err::<Seq<MemoryItemView>, ErrorView>(e@),
    }
}

/// Whether `result` is `expected`, each side taken by its content.
pub open spec fn text_agrees(result: Result<String, McpError>, expected: Result<Seq<char>, ErrorView>) -> bool {
    match result {
        Ok(text) => expected == Ok::<Seq<char>, ErrorView>(text@),
        Err(e) => expected == Err::<Seq<char>, ErrorView>(e@),
    }
}

fn join(base: &str, path: &str) -> (r: String)
    ensures
        r@ == base@ + path@,
{
    String::from_str(base).concat(path)
}

fn owned(text: Option<&str>) -> (r: Option<String>)
    ensures
        r.deep_view() == text.deep_view(),
{
    match text {
        Some(t) => Some(String::from_str(t)),
        None => None,
    }
}

fn probe(base: &str) -> (r: BackendRequest)
    ensures
        r@ == probe_call(base@),
{
    BackendRequest { method: Method::Get, url: join(base, "/health"), user_id: None, payload: Payload::Empty }
}

/// Brings one entry of a search answer into normal form.
pub fn memory_item(entry: &JsonValue) -> (r: MemoryItem)
    ensures
        r@ == memory_item_of(*entry),
{
    proof {
        reveal_strlit("");
        assert(""@ =~= Seq::<char>::empty());
    }
    let input = entry.text_or("input_context", "");
    let output = entry.text_or("output_response", "");
    let content = String::from_str("Input: ").concat(input.as_str()).concat("\nOutput: ").concat(
        output.as_str(),
    );
    let confidence_score = match entry.member("confidence_score") {
        Some(v) => match v.as_number() {
            Some(n) => n,
            None => JsonNumber { bits: 0 },
        },
        None => JsonNumber { bits: 0 },
    };
    MemoryItem {
        id: entry.text_or("id", ""),
        content,
        tier: entry.text_or("tier", "ltm"),
        confidence_score,
        created_at: entry.text_or("created_at", ""),
    }
}

/// Reads the results out of a decoded search answer.
pub fn memories_from_json(answer: &JsonValue) -> (r: Result<Vec<MemoryItem>, McpError>)
    ensures
        items_agree(r, memories_of(*answer)),
{
    let entries = match answer.member("results") {
        Some(v) => match v.as_array() {
            Some(entries) => entries,
            None => {
                return Err(McpError::InternalError(String::from_str("Invalid memory response format")));
            },
        },
        None => {
            return Err(McpError::InternalError(String::from_str("Invalid memory response format")));
        },
    };
    let mut items: Vec<MemoryItem> = Vec::new();
    let mut i: usize = 0;
    while i < entries.len()
        invariant
            i <= entries.len(),
            items.len() == i,
            forall|j: int| 0 <= j < i ==> (#[trigger] items[j])@ == memory_item_of(entries[j]),
        decreases entries.len() - i,
    {
        items.push(memory_item(&entries[i]));
        i = i + 1;
    }
    assert(items.deep_view() =~= Seq::new(entries@.len(), |i: int| memory_item_of(entries@[i])));
    Ok(items)
}

/// Reads the identifier out of a decoded store answer.
pub fn stored_id_from_json(answer: &JsonValue) -> (r: String)
    ensures
        r@ == stored_id_of(*answer),
{
    proof {
        reveal_strlit("");
        assert(""@ =~= Seq::<char>::empty());
    }
    answer.text_or("id", "")
}

/// The client of the memory backend.
#[derive(Clone, Debug, PartialEq, Eq)]
pub struct MemoryServiceClient {
    base_url: String,
}

impl View for MemoryServiceClient {
    type V = Seq<char>;

    /// The address of the backend.
    closed spec fn view(&self) -> Seq<char> {
        self.base_url@
    }
}

impl MemoryServiceClient {
    /// A client of the memory backend at `base_url`.
    pub fn new(base_url: &str) -> (r: Self)
        ensures
            r@ == base_url@,
    {
        Self { base_url: String::from_str(base_url) }
    }

    /// The address of the backend.
    pub fn base_url(&self) -> (r: &str)
        ensures
            r@ == self@,
    {
        self.base_url.as_str()
    }

    /// Shapes the search for `query` on behalf of `user_id`. The search is not
    /// narrowed to a tier.
    pub fn search_memories(&self, user_id: &str, query: &str, limit: Option<usize>) -> (r: BackendRequest)
        ensures
            r@ == search_call(self@, user_id@, query@, limit),
    {
        BackendRequest {
            method: Method::Post,
            url: join(self.base_url.as_str(), "/memory/search"),
            user_id: Some(String::from_str(user_id)),
            payload: Payload::Search(MemorySearchRequest { query: String::from_str(query), limit, tier: None }),
        }
    }

    /// Reads the reply to a search: the results in normal form, or the failure
    /// that the reply amounts to. Only the status 200 is success.
    pub fn search_memories_reply(reply: BackendReply<Vec<u8>>) -> (r: Result<Vec<MemoryItem>, McpError>)
        ensures
            items_agree(r, search_outcome(reply)),
    {
        match CallKind::Search.receive_json(reply) {
            Ok(answer) => memories_from_json(&answer),
            Err(e) => Err(e),
        }
    }

    /// Shapes the request to store one entry on behalf of `user_id`.
    pub fn store_memory(
        &self,
        user_id: &str,
        memory_type: &str,
        input_context: &str,
        output_response: Option<&str>,
        outcome: Option<&str>,
        tags: Option<Vec<String>>,
    ) -> (r: BackendRequest)
        ensures
            r@ == store_call(
                self@,
                user_id@,
                memory_type@,
                input_context@,
                output_response.deep_view(),
                outcome.deep_view(),
                tags.deep_view(),
            ),
    {
        BackendRequest {
            method: Method::Post,
            url: join(self.base_url.as_str(), "/memory/store"),
            user_id: Some(String::from_str(user_id)),
            payload: Payload::Store(
                MemoryStoreRequest {
                    memory_type: String::from_str(memory_type),
                    input_context: String::from_str(input_context),
                    output_response: owned(output_response),
                    outcome: owned(outcome),
                    tier: String::from_str("ltm"),
                    tags,
                },
            ),
        }
    }

    /// Reads the reply to a store request: the identifier of the new entry, or
    /// the failure that the reply amounts to. The statuses 200 and 201 are
    /// success. An answer that names no identifier yields the empty text.
    pub fn store_memory_reply(reply: BackendReply<Vec<u8>>) -> (r: Result<String, McpError>)
        ensures
            text_agrees(r, store_outcome(reply)),
    {
        match CallKind::Store.receive_json(reply) {
            Ok(answer) => Ok(stored_id_from_json(&answer)),
            Err(e) => Err(e),
        }
    }

    /// Shapes the probe that asks the backend whether it is alive.
    pub fn health_check(&self) -> (r: BackendRequest)
        ensures
            r@ == probe_call(self@),
    {
        probe(self.base_url.as_str())
    }

    /// Reads the reply to a probe. This never fails: whatever went wrong, the
    /// backend is reported as not alive.
    pub fn health_check_reply<B>(reply: &BackendReply<B>) -> (r: bool)
        ensures
            r == reply.spec_succeeded(),
    {
        reply.succeeded()
    }
}

/// The client of the intelligence backend.
#[derive(Clone, Debug, PartialEq, Eq)]
pub struct IntelligenceServiceClient {
    base_url: String,
}

impl View for IntelligenceServiceClient {
    type V = Seq<char>;

    /// The address of the backend.
    closed spec fn view(&self) -> Seq<char> {
        self.base_url@
    }
}

impl IntelligenceServiceClient {
    /// A client of the intelligence backend at `base_url`.
    pub fn new(base_url: &str) -> (r: Self)
        ensures
            r@ == base_url@,
    {
        Self { base_url: String::from_str(base_url) }
    }

    /// The address of the backend.
    pub fn base_url(&self) -> (r: &str)
        ensures
            r@ == self@,
    {
        self.base_url.as_str()
    }

    /// Shapes the request that sends `message` on behalf of `user_id`.
    /// `use_memory` is passed on as it is.
    pub fn send_message(
        &self,
        user_id: &str,
        message: &str,
        session_id: Option<uuid::Uuid>,
        use_memory: bool,
    ) -> (r: BackendRequest)
        ensures
            r@ == chat_call(self@, user_id@, message@, session_id, use_memory),
    {
        BackendRequest {
            method: Method::Post,
            url: join(self.base_url.as_str(), "/chat/message"),
            user_id: Some(String::from_str(user_id)),
            payload: Payload::Chat(ChatMessageRequest { message: String::from_str(message), session_id, use_memory }),
        }
    }

    /// Reads the reply to a message: the backend's answer, or the failure that
    /// the reply amounts to. Only the status 200 is success.
    pub fn send_message_reply(reply: BackendReply<ChatMessageResponse>) -> (r: Result<
        ChatMessageResponse,
        McpError,
    >)
        ensures
            crate::backend::agrees(r, classified(CallKind::Chat, reply)),
    {
        CallKind::Chat.receive(reply)
    }

    /// Shapes the probe that asks the backend whether it is alive.
    pub fn health_check(&self) -> (r: BackendRequest)
        ensures
            r@ == probe_call(self@),
    {
        probe(self.base_url.as_str())
    }

    /// Reads the reply to a probe. This never fails: whatever went wrong, the
    /// backend is reported as not alive.
    pub fn health_check_reply<B>(reply: &BackendReply<B>) -> (r: bool)
        ensures
            r == reply.spec_succeeded(),
    {
        reply.succeeded()
    }
}

/// A search is a success only under the status 200. Any other status makes it
/// `ServiceUnavailable`, whatever the body holds: never `InvalidRequest`,
/// never `NotFound`.
pub proof fn search_refuses_every_other_status(status: HttpStatus, body: Result<Vec<u8>, String>)
    requires
        status.value() != 200,
    ensures
        search_outcome(BackendReply::Answered { status, body }) == Err::<Seq<MemoryItemView>, ErrorView>(
            service_unavailable(status_complaint(CallKind::Search) + status_text(status.value())),
        ),
{
}

/// A search that could not reach the backend is `ServiceUnavailable`, in the
/// transport's own words.
pub proof fn search_without_answer_is_unavailable(why: String)
    ensures
        search_outcome(BackendReply::Unreachable(why)) == Err::<Seq<MemoryItemView>, ErrorView>(
            service_unavailable(why@),
        ),
{
}

/// An accepted answer to a search whose body is no JSON document is an
/// `InternalError`, and so is one that decodes to a document without a
/// `results` list.
pub proof fn search_with_unusable_body_is_internal(status: HttpStatus, text: Vec<u8>)
    requires
        status.value() == 200,
        match decoded(text@) {
            Ok(answer) => answer.items_at("results"@) is None,
            Err(_) => true,
        },
    ensures
        search_outcome(BackendReply::Answered { status, body: Ok(text) }) matches Err(e) && e.kind
            == ErrorKind::InternalError,
{
}

/// An answer to a search whose `results` list is empty holds no memories, and
/// that is no failure.
pub proof fn empty_results_are_no_failure(status: HttpStatus, text: Vec<u8>, answer: JsonValue)
    requires
        status.value() == 200,
        decoded(text@) == Ok::<JsonValue, Seq<char>>(answer),
        answer.items_at("results"@) == Some(Seq::<JsonValue>::empty()),
    ensures
        search_outcome(BackendReply::Answered { status, body: Ok(text) }) == Ok::<
            Seq<MemoryItemView>,
            ErrorView,
        >(Seq::empty()),
{
    assert(Seq::new(0, |i: int| memory_item_of(Seq::<JsonValue>::empty()[i])) =~= Seq::<MemoryItemView>::empty());
}

/// An answer to a search holds one memory for each entry of its `results`
/// list, in the order of the list.
pub proof fn results_keep_their_order(answer: JsonValue, entries: Seq<JsonValue>, i: int)
    requires
        answer.items_at("results"@) == Some(entries),
        0 <= i < entries.len(),
    ensures
        memories_of(answer) matches Ok(memories) && memories.len() == entries.len() && memories[i]
            == memory_item_of(entries[i]),
{
}

/// A store request is a success under the statuses 200 and 201, and then
/// yields the identifier that the answer names.
pub proof fn store_accepts_ok_and_created(status: HttpStatus, text: Vec<u8>, answer: JsonValue)
    requires
        status.value() == 200 || status.value() == 201,
        decoded(text@) == Ok::<JsonValue, Seq<char>>(answer),
    ensures
        store_outcome(BackendReply::Answered { status, body: Ok(text) }) == Ok::<Seq<char>, ErrorView>(
            stored_id_of(answer),
        ),
{
}

/// A store request under any status but 200 and 201 is `ServiceUnavailable`.
pub proof fn store_refuses_every_other_status(status: HttpStatus, body: Result<Vec<u8>, String>)
    requires
        status.value() != 200,
        status.value() != 201,
    ensures
        store_outcome(BackendReply::Answered { status, body }) == Err::<Seq<char>, ErrorView>(
            service_unavailable(status_complaint(CallKind::Store) + status_text(status.value())),
        ),
{
}

/// An answer to a store request that names no identifier, or names one that
/// is not text, yields the empty identifier and not a failure.
pub proof fn missing_identifier_is_empty(answer: JsonValue)
    requires
        answer.text_at("id"@) is None,
    ensures
        stored_id_of(answer) == Seq::<char>::empty(),
{
}

} // verus!
