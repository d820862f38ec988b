//! The operations of the gateway.
//!
//! Each operation runs through the same stations: resolve the caller's
//! identity, or stop as unauthorized; call a backend; read its reply; report
//! how the call ended; answer. An operation that needs a backend is therefore
//! a pair of functions. The first returns a [`Step`]: either the call to issue
//! or, where the operation is over before any backend is involved, its
//! [`Completion`]. The second takes the reply and returns the completion.
//! Every path ends in exactly one completion, and a completion holds what the
//! metrics sink is to be told.

use crate::backend::{
    classified, BackendReply, BackendRequest, BackendRequestView, CallKind, HttpStatus, Method,
};
use crate::errors::{internal_error, status_of, unauthorized, ErrorKind, ErrorView, McpError};
use crate::json::{decoded, JsonValue};
use crate::metrics::{
    gather_metrics, outcome_label, recorded, sink_error_text, EndpointObservation, MetricsRecorder,
    Outcome,
};
use crate::middleware::{extract_user_id, resolved, IdentitySources};
use crate::models::{
    ChatMessageResponse, ContextFetchRequest, ContextFetchResponse, ContextFetchResponseView,
    HealthResponse, HealthResponseView, MemoryItemView, MemoryLogRequest,
    MemoryLogResponse, MemoryLogResponseView, TaskSubmitRequest, TaskSubmitResponse,
    TaskSubmitResponseView,
};
use crate::services::{
    chat_call, probe_call, search_call, search_outcome, store_call, store_outcome,
    IntelligenceServiceClient, MemoryServiceClient,
};
use crate::text::{decimal, decimal_string, text_or_empty};
use std::time::Duration;
use vstd::prelude::*;

verus! {

/// The operations that the gateway offers.
#[derive(Clone, Copy, Debug, PartialEq, Eq, Structural)]
pub enum Endpoint {
    Metrics,
    Health,
    ContextFetch,
    MemoryLog,
    TaskSubmit,
}

/// The name under which an operation is reported to the metrics sink: its
/// path.
pub open spec fn endpoint_name(endpoint: Endpoint) -> Seq<char> {
    match endpoint {
        Endpoint::Metrics => "/mcp/metrics"@,
        Endpoint::Health => "/mcp/health"@,
        Endpoint::ContextFetch => "/mcp/context/fetch"@,
        Endpoint::MemoryLog => "/mcp/memory/log"@,
        Endpoint::TaskSubmit => "/mcp/task/submit"@,
    }
}

impl Endpoint {
    /// The path of this operation.
    pub fn path(&self) -> (r: &'static str)
        ensures
            r@ == endpoint_name(*self),
    {
        match self {
            Endpoint::Metrics => "/mcp/metrics",
            Endpoint::Health => "/mcp/health",
            Endpoint::ContextFetch => "/mcp/context/fetch",
            Endpoint::MemoryLog => "/mcp/memory/log",
            Endpoint::TaskSubmit => "/mcp/task/submit",
        }
    }
}

/// The prefix that the paths of all operations share.
pub const SCOPE: &'static str = "/mcp";

/// Where an operation is mounted: under which verb and which path below
/// [`SCOPE`].
#[derive(Clone, Copy, Debug, PartialEq, Eq)]
pub struct Route {
    pub method: Method,
    pub path: &'static str,
    pub endpoint: Endpoint,
}

/// The verb under which an operation is called: the two that only read are
/// called with `Get`, the others with `Post`.
pub open spec fn route_method(endpoint: Endpoint) -> Method {
    match endpoint {
        Endpoint::Metrics => Method::Get,
        Endpoint::Health => Method::Get,
        Endpoint::ContextFetch => Method::Post,
        Endpoint::MemoryLog => Method::Post,
        Endpoint::TaskSubmit => Method::Post,
    }
}

/// The path of an operation below [`SCOPE`].
pub open spec fn route_path(endpoint: Endpoint) -> Seq<char> {
    match endpoint {
        Endpoint::Metrics => "/metrics"@,
        Endpoint::Health => "/health"@,
        Endpoint::ContextFetch => "/context/fetch"@,
        Endpoint::MemoryLog => "/memory/log"@,
        Endpoint::TaskSubmit => "/task/submit"@,
    }
}

/// Whether `route` mounts its operation where it belongs.
pub open spec fn well_mounted(route: Route) -> bool {
    route.method == route_method(route.endpoint) && route.path@ == route_path(route.endpoint)
}

/// The routes of the gateway: every operation once, each where it belongs.
pub fn configure_routes() -> (r: Vec<Route>)
    ensures
        r@.len() == 5,
        r@[0].endpoint == Endpoint::Health,
        r@[1].endpoint == Endpoint::ContextFetch,
        r@[2].endpoint == Endpoint::MemoryLog,
        r@[3].endpoint == Endpoint::TaskSubmit,
        r@[4].endpoint == Endpoint::Metrics,
        forall|i: int| 0 <= i < 5 ==> well_mounted(#[trigger] r@[i]),
{
    let mut routes: Vec<Route> = Vec::new();
    routes.push(Route { method: Method::Get, path: "/health", endpoint: Endpoint::Health });
    routes.push(Route { method: Method::Post, path: "/context/fetch", endpoint: Endpoint::ContextFetch });
    routes.push(Route { method: Method::Post, path: "/memory/log", endpoint: Endpoint::MemoryLog });
    routes.push(Route { method: Method::Post, path: "/task/submit", endpoint: Endpoint::TaskSubmit });
    routes.push(Route { method: Method::Get, path: "/metrics", endpoint: Endpoint::Metrics });
    routes
}

/// The end of a handled call: which operation it was, and the answer or the
/// failure that goes back to the caller.
#[derive(Debug, PartialEq, Eq)]
pub struct Completion<T> {
    pub endpoint: Endpoint,
    pub result: Result<T, McpError>,
}

/// What an operation asks of whoever drives it.
#[derive(Debug, PartialEq, Eq)]
pub enum Step<T> {
    /// Issue this call and hand the reply to the operation's second function.
    Call(BackendRequest),
    /// The operation is over. No backend was called.
    Done(Completion<T>),
}

/// How a call that ended with `result` is reported: as a success where there
/// is an answer, as an error where there is a failure.
pub open spec fn outcome_of<T>(result: Result<T, McpError>) -> Outcome {
    match result {
        Ok(_) => Outcome::Success,
        Err(_) => Outcome::Error,
    }
}

impl<T> Completion<T> {
    /// How this call is reported to the metrics sink.
    pub fn outcome(&self) -> (r: Outcome)
        ensures
            r == outcome_of(self.result),
    {
        match &self.result {
            Ok(_) => Outcome::Success,
            Err(_) => Outcome::Error,
        }
    }

    /// The one observation that this call gives rise to, given the time it
    /// took.
    pub fn observation(&self, elapsed: Duration) -> (r: EndpointObservation)
        ensures
            r.endpoint@ == endpoint_name(self.endpoint),
            r.outcome == outcome_of(self.result),
            r.duration == elapsed,
    {
        EndpointObservation {
            endpoint: String::from_str(self.endpoint.path()),
            outcome: self.outcome(),
            duration: elapsed,
        }
    }

    /// Ends a handled call: hands its one observation to the sink, then gives
    /// out what goes back to the caller. The sink counts the call under the
    /// operation's name and the word for its outcome, and takes its duration.
    /// The completion is used up, so a call cannot be reported twice.
    pub fn conclude(self, recorder: &mut MetricsRecorder, elapsed: Duration) -> (r: Result<T, McpError>)
        ensures
            r == self.result,
            recorded(
                *old(recorder),
                *final(recorder),
                endpoint_name(self.endpoint),
                outcome_label(outcome_of(self.result)),
            ),
    {
        let observation = self.observation(elapsed);
        recorder.observe(&observation);
        self.result
    }
}

/// The failure of an operation whose caller could not be identified.
pub open spec fn no_identity() -> ErrorView {
    unauthorized("User ID not found in request"@)
}

/// How an operation that needs the caller's identity begins.
pub enum Begin {
    /// With this backend call.
    Call(BackendRequestView),
    /// Not at all: it ends with this failure before any backend is called.
    Reject(ErrorView),
}

/// Whether `step` is the first step of `endpoint` that `expected` describes.
pub open spec fn begins<T>(step: Step<T>, endpoint: Endpoint, expected: Begin) -> bool {
    match step {
        Step::Call(call) => expected == Begin::Call(call@),
        Step::Done(done) => done.endpoint == endpoint && (done.result matches Err(e) && expected == Begin::Reject(
            e@,
        )),
    }
}

fn reject<T>(endpoint: Endpoint) -> (r: Step<T>)
    ensures
        begins(r, endpoint, Begin::Reject(no_identity())),
{
    Step::Done(
        Completion {
            endpoint,
            result: Err(McpError::Unauthorized(String::from_str("User ID not found in request"))),
        },
    )
}

/// The word for the state of the gateway, given what the two probes found.
pub open spec fn health_word(memory_ok: bool, intelligence_ok: bool) -> Seq<char> {
    if memory_ok && intelligence_ok {
        "healthy"@
    } else {
        "degraded"@
    }
}

/// The number of results asked for where the caller names none.
pub const DEFAULT_LIMIT: usize = 5;

/// The text that the memory backend is asked to search for: the path of the
/// file, followed by a space and its content where the caller sent some.
pub open spec fn context_query(file_path: Seq<char>, file_content: Option<Seq<char>>) -> Seq<char> {
    match file_content {
        Some(content) => file_path + " "@ + content,
        None => file_path,
    }
}

/// The number of results to ask for.
pub open spec fn limit_or_default(limit: Option<usize>) -> usize {
    match limit {
        Some(n) => n,
        None => DEFAULT_LIMIT,
    }
}

/// The sentence that sums up a search with `count` results for `file_path`.
pub open spec fn context_summary(count: nat, file_path: Seq<char>) -> Seq<char> {
    if count == 0 {
        "No relevant context found."@
    } else {
        "Found "@ + decimal(count) + " relevant memory items related to "@ + file_path
    }
}

/// The answer to a context request for `file_path`, given what the search
/// amounted to.
pub open spec fn context_answer(file_path: Seq<char>, found: Result<Seq<MemoryItemView>, ErrorView>) -> Result<
    ContextFetchResponseView,
    ErrorView,
> {
    match found {
        Ok(memories) => Ok(
            ContextFetchResponseView { memories, context_summary: context_summary(memories.len(), file_path) },
        ),
        Err(e) => Err(e),
    }
}

/// The kind of every memory that the gateway writes.
pub open spec fn logged_type() -> Seq<char> {
    "code_interaction"@
}

/// What is stored as the input of a logged interaction.
pub open spec fn logged_context(file_path: Seq<char>, action: Seq<char>, content: Option<Seq<char>>) -> Seq<
    char,
> {
    "File: "@ + file_path + "\nAction: "@ + action + "\n"@ + text_or_empty(content)
}

/// The tags of a logged interaction: the action, then two fixed ones.
pub open spec fn logged_tags(action: Seq<char>) -> Seq<Seq<char>> {
    seq![action, "vscode"@, "mcp"@]
}

/// The sentence that confirms the entry `memory_id`.
pub open spec fn stored_message(memory_id: Seq<char>) -> Seq<char> {
    "Memory "@ + memory_id + " stored successfully"@
}

/// The answer to a log request, given what the store call amounted to.
pub open spec fn log_answer(stored: Result<Seq<char>, ErrorView>) -> Result<MemoryLogResponseView, ErrorView> {
    match stored {
        Ok(memory_id) => Ok(
            MemoryLogResponseView { memory_id, stored: true, message: stored_message(memory_id) },
        ),
        Err(e) => Err(e),
    }
}

/// The message that the intelligence backend receives for a task: the task
/// description, preceded by the file context where the caller sent one.
pub open spec fn task_message(task_description: Seq<char>, file_context: Option<Seq<char>>) -> Seq<char> {
    match file_context {
        Some(context) => "File Context:\n"@ + context + "\n\nTask: "@ + task_description,
        None => task_description,
    }
}

/// The answer to a task, given what the chat call amounted to.
pub open spec fn task_answer(replied: Result<ChatMessageResponse, ErrorView>) -> Result<
    TaskSubmitResponseView,
    ErrorView,
> {
    match replied {
        Ok(chat) => Ok(
            TaskSubmitResponseView {
                session_id: chat.session_id@,
                response: chat.response@,
                tokens_used: chat.tokens_used,
            },
        ),
        Err(e) => Err(e),
    }
}

/// The words that introduce what went wrong when the metrics could not be
/// rendered.
pub open spec fn export_complaint() -> Seq<char> {
    "failed to encode metrics: "@
}

/// How a context request begins: with the search for the file on behalf of
/// the caller, or not at all where the caller cannot be identified.
pub open spec fn context_begin(identity: IdentitySources, request: ContextFetchRequest, memory: Seq<char>) -> Begin {
    match resolved(identity) {
        Some(user_id) => Begin::Call(
            search_call(
                memory,
                user_id,
                context_query(request.file_path@, request.file_content.deep_view()),
                Some(limit_or_default(request.limit)),
            ),
        ),
        None => Begin::Reject(no_identity()),
    }
}

/// How a log request begins: with the store call on behalf of the caller, or
/// not at all where the caller cannot be identified. What the caller reports
/// as the outcome is stored both as the output and as the outcome.
pub open spec fn log_begin(identity: IdentitySources, request: MemoryLogRequest, memory: Seq<char>) -> Begin {
    match resolved(identity) {
        Some(user_id) => Begin::Call(
            store_call(
                memory,
                user_id,
                logged_type(),
                logged_context(request.file_path@, request.action@, request.content.deep_view()),
                request.outcome.deep_view(),
                request.outcome.deep_view(),
                Some(logged_tags(request.action@)),
            ),
        ),
        None => Begin::Reject(no_identity()),
    }
}

/// How a task begins: with the message to the intelligence backend on behalf
/// of the caller, memory switched on, or not at all where the caller cannot
/// be identified.
pub open spec fn task_begin(identity: IdentitySources, request: TaskSubmitRequest, intelligence: Seq<char>) -> Begin {
    match resolved(identity) {
        Some(user_id) => Begin::Call(
            chat_call(
                intelligence,
                user_id,
                task_message(request.task_description@, request.file_context.deep_view()),
                request.session_id,
                true,
            ),
        ),
        None => Begin::Reject(no_identity()),
    }
}

/// Whether `done` is the completion of `endpoint` with `expected`.
pub open spec fn completes<T: View>(done: Completion<T>, endpoint: Endpoint, expected: Result<T::V, ErrorView>) -> bool {
    &&& done.endpoint == endpoint
    &&& match done.result {
        Ok(answer) => expected == Ok::<T::V, ErrorView>(answer@),
        Err(e) => expected == Err::<T::V, ErrorView>(e@),
    }
}

/// Shapes the two probes of the health operation, the memory backend's first.
/// The probes do not depend on each other and may be issued at once.
pub fn health_check(memory: &MemoryServiceClient, intelligence: &IntelligenceServiceClient) -> (r: (
    BackendRequest,
    BackendRequest,
))
    ensures
        r.0@ == probe_call(memory@),
        r.1@ == probe_call(intelligence@),
{
    (memory.health_check(), intelligence.health_check())
}

/// Completes the health operation from the replies to its two probes.
///
/// The gateway is `healthy` if both backends answered with success and
/// `degraded` otherwise. The operation itself always succeeds.
pub fn health_check_reply<A, B>(
    memory_reply: &BackendReply<A>,
    intelligence_reply: &BackendReply<B>,
    version: &str,
) -> (done: Completion<HealthResponse>)
    ensures
        completes(
            done,
            Endpoint::Health,
            Ok(
                HealthResponseView {
                    status: health_word(memory_reply.spec_succeeded(), intelligence_reply.spec_succeeded()),
                    version: version@,
                    memory_service: memory_reply.spec_succeeded(),
                    intelligence_service: intelligence_reply.spec_succeeded(),
                },
            ),
        ),
{
    let memory_ok = MemoryServiceClient::health_check_reply(memory_reply);
    let intelligence_ok = IntelligenceServiceClient::health_check_reply(intelligence_reply);
    let status = if memory_ok && intelligence_ok {
        String::from_str("healthy")
    } else {
        String::from_str("degraded")
    };
    Completion {
        endpoint: Endpoint::Health,
        result: Ok(
            HealthResponse {
                status,
                version: String::from_str(version),
                memory_service: memory_ok,
                intelligence_service: intelligence_ok,
            },
        ),
    }
}

/// Begins a context request: the search to issue, or the end of the
/// operation where the caller cannot be identified.
pub fn fetch_context(identity: &IdentitySources, request: &ContextFetchRequest, memory: &MemoryServiceClient) -> (r:
    Step<ContextFetchResponse>)
    ensures
        begins(r, Endpoint::ContextFetch, context_begin(*identity, *request, memory@)),
{
    let user_id = match extract_user_id(identity) {
        Some(id) => id,
        None => {
            return reject(Endpoint::ContextFetch);
        },
    };
    let query = match &request.file_content {
        Some(content) => String::from_str(request.file_path.as_str()).concat(" ").concat(content.as_str()),
        None => request.file_path.clone(),
    };
    let limit = match request.limit {
        Some(n) => n,
        None => DEFAULT_LIMIT,
    };
    Step::Call(memory.search_memories(user_id.as_str(), query.as_str(), Some(limit)))
}

/// Completes a context request from the reply to its search.
pub fn fetch_context_reply(request: &ContextFetchRequest, reply: BackendReply<Vec<u8>>) -> (done: Completion<
    ContextFetchResponse,
>)
    ensures
        completes(done, Endpoint::ContextFetch, context_answer(request.file_path@, search_outcome(reply))),
{
    let result = match MemoryServiceClient::search_memories_reply(reply) {
        Ok(memories) => {
            let context_summary = summarize(memories.len(), request.file_path.as_str());
            Ok(ContextFetchResponse { memories, context_summary })
        },
        Err(e) => Err(e),
    };
    Completion { endpoint: Endpoint::ContextFetch, result }
}

/// Sums up a search with `count` results for `file_path` in one sentence.
pub fn summarize(count: usize, file_path: &str) -> (r: String)
    ensures
        r@ == context_summary(count as nat, file_path@),
{
    if count == 0 {
        String::from_str("No relevant context found.")
    } else {
        let number = decimal_string(count as u64);
        String::from_str("Found ").concat(number.as_str()).concat(" relevant memory items related to ").concat(
            file_path,
        )
    }
}

/// Begins a log request: the store call to issue, or the end of the
/// operation where the caller cannot be identified.
pub fn log_memory(identity: &IdentitySources, request: &MemoryLogRequest, memory: &MemoryServiceClient) -> (r:
    Step<MemoryLogResponse>)
    ensures
        begins(r, Endpoint::MemoryLog, log_begin(*identity, *request, memory@)),
{
    let user_id = match extract_user_id(identity) {
        Some(id) => id,
        None => {
            return reject(Endpoint::MemoryLog);
        },
    };
    proof {
        reveal_strlit("");
        assert(""@ =~= Seq::<char>::empty());
    }
    let content: &str = match &request.content {
        Some(c) => c.as_str(),
        None => "",
    };
    let input_context = String::from_str("File: ").concat(request.file_path.as_str()).concat("\nAction: ").concat(
        request.action.as_str(),
    ).concat("\n").concat(content);
    let outcome: Option<&str> = match &request.outcome {
        Some(o) => Some(o.as_str()),
        None => None,
    };
    let mut tags: Vec<String> = Vec::new();
    tags.push(request.action.clone());
    tags.push(String::from_str("vscode"));
    tags.push(String::from_str("mcp"));
    assert(tags.deep_view() =~= logged_tags(request.action@));
    Step::Call(
        memory.store_memory(user_id.as_str(), "code_interaction", input_context.as_str(), outcome, outcome, Some(tags)),
    )
}

/// Completes a log request from the reply to its store call.
pub fn log_memory_reply(reply: BackendReply<Vec<u8>>) -> (done: Completion<MemoryLogResponse>)
    ensures
        completes(done, Endpoint::MemoryLog, log_answer(store_outcome(reply))),
{
    let result = match MemoryServiceClient::store_memory_reply(reply) {
        Ok(memory_id) => {
            let message = String::from_str("Memory ").concat(memory_id.as_str()).concat(" stored successfully");
            Ok(MemoryLogResponse { memory_id, stored: true, message })
        },
        Err(e) => Err(e),
    };
    Completion { endpoint: Endpoint::MemoryLog, result }
}

/// Begins a task: the message to send, or the end of the operation where the
/// caller cannot be identified. The backend is always asked to use its memory.
pub fn submit_task(
    identity: &IdentitySources,
    request: &TaskSubmitRequest,
    intelligence: &IntelligenceServiceClient,
) -> (r: Step<TaskSubmitResponse>)
    ensures
        begins(r, Endpoint::TaskSubmit, task_begin(*identity, *request, intelligence@)),
{
    let user_id = match extract_user_id(identity) {
        Some(id) => id,
        None => {
            return reject(Endpoint::TaskSubmit);
        },
    };
    let message = match &request.file_context {
        Some(context) => String::from_str("File Context:\n").concat(context.as_str()).concat("\n\nTask: ").concat(
            request.task_description.as_str(),
        ),
        None => request.task_description.clone(),
    };
    Step::Call(intelligence.send_message(user_id.as_str(), message.as_str(), request.session_id, true))
}

/// Completes a task from the reply of the intelligence backend.
pub fn submit_task_reply(reply: BackendReply<ChatMessageResponse>) -> (done: Completion<TaskSubmitResponse>)
    ensures
        completes(done, Endpoint::TaskSubmit, task_answer(classified(CallKind::Chat, reply))),
{
    let result = match IntelligenceServiceClient::send_message_reply(reply) {
        Ok(chat) => Ok(
            TaskSubmitResponse { session_id: chat.session_id, response: chat.response, tokens_used: chat.tokens_used },
        ),
        Err(e) => Err(e),
    };
    Completion { endpoint: Endpoint::TaskSubmit, result }
}

/// Completes the export of the metrics from what rendering them gave: the
/// rendered bytes, or the words of the failure.
pub fn export_metrics_reply(rendered: Result<Vec<u8>, String>) -> (done: Completion<Vec<u8>>)
    ensures
        done.endpoint == Endpoint::Metrics,
        match rendered {
            Ok(bytes) => done.result == Ok::<Vec<u8>, McpError>(bytes),
            Err(why) => done.result matches Err(e) && e@ == internal_error(export_complaint() + why@),
        },
{
    let result = match rendered {
        Ok(bytes) => Ok(bytes),
        Err(why) => Err(McpError::InternalError(String::from_str("failed to encode metrics: ").concat(why.as_str()))),
    };
    Completion { endpoint: Endpoint::Metrics, result }
}

/// Renders the metrics of this process for export.
///
/// What is rendered is everything that the process has counted so far, so the
/// bytes are not determined by anything this function is given. A failure to
/// render is an `InternalError`.
pub fn export_metrics() -> (done: Completion<Vec<u8>>)
    ensures
        done.endpoint == Endpoint::Metrics,
        done.result matches Err(e) ==> e@.kind == ErrorKind::InternalError && exists|why: Seq<char>|
            e@.detail == export_complaint() + why,
{
    let rendered = match gather_metrics() {
        Ok(bytes) => Ok(bytes),
        Err(e) => Err(sink_error_text(&e)),
    };
    let done = export_metrics_reply(rendered);
    done
}

/// A request that carries neither an attached identity nor an identity header
/// is turned away by every operation that needs to know its caller: the
/// operation ends as `Unauthorized`, which leaves the gateway as 401, and no
/// backend call is shaped. A bearer token changes nothing about that.
pub proof fn unidentified_caller_is_turned_away(
    identity: IdentitySources,
    context: ContextFetchRequest,
    log: MemoryLogRequest,
    task: TaskSubmitRequest,
    memory: Seq<char>,
    intelligence: Seq<char>,
)
    requires
        identity.attached is None,
        identity.user_id_header is None,
    ensures
        context_begin(identity, context, memory) == Begin::Reject(no_identity()),
        log_begin(identity, log, memory) == Begin::Reject(no_identity()),
        task_begin(identity, task, intelligence) == Begin::Reject(no_identity()),
        no_identity().kind == ErrorKind::Unauthorized,
        status_of(no_identity().kind) == 401,
{
}

/// An operation is turned away only for want of an identity: with an attached
/// identity or an identity header, each of them begins with a backend call.
pub proof fn identified_caller_reaches_the_backend(
    identity: IdentitySources,
    context: ContextFetchRequest,
    log: MemoryLogRequest,
    task: TaskSubmitRequest,
    memory: Seq<char>,
    intelligence: Seq<char>,
)
    requires
        identity.attached is Some || identity.user_id_header is Some,
    ensures
        context_begin(identity, context, memory) is Call,
        log_begin(identity, log, memory) is Call,
        task_begin(identity, task, intelligence) is Call,
{
}

/// The gateway is reported `healthy` if and only if both probes succeeded;
/// otherwise it is reported `degraded`.
pub proof fn healthy_means_both_backends_answer(memory_ok: bool, intelligence_ok: bool)
    ensures
        health_word(memory_ok, intelligence_ok) == "healthy"@ <==> memory_ok && intelligence_ok,
        health_word(memory_ok, intelligence_ok) == "degraded"@ <==> !(memory_ok && intelligence_ok),
{
    reveal_strlit("healthy");
    reveal_strlit("degraded");
    assert("healthy"@.len() != "degraded"@.len());
}

/// A search that finds nothing is answered with an empty list and the
/// sentence "No relevant context found.".
pub proof fn nothing_found_is_said_so(file_path: Seq<char>)
    ensures
        context_answer(file_path, Ok(Seq::empty())) == Ok::<ContextFetchResponseView, ErrorView>(
            ContextFetchResponseView {
                memories: Seq::empty(),
                context_summary: "No relevant context found."@,
            },
        ),
{
}

/// A search that finds something is summed up in a sentence that names the
/// number of results, in decimal, and ends with the path of the file.
pub proof fn summary_names_count_and_path(count: nat, file_path: Seq<char>)
    requires
        count > 0,
    ensures
        context_summary(count, file_path) == "Found "@ + decimal(count) + " relevant memory items related to "@
            + file_path,
        context_summary(count, file_path).subrange(6, 6 + decimal(count).len() as int) == decimal(count),
        context_summary(count, file_path).subrange(
            context_summary(count, file_path).len() - file_path.len(),
            context_summary(count, file_path).len() as int,
        ) == file_path,
{
    reveal_strlit("Found ");
    let summary = context_summary(count, file_path);
    assert(summary.subrange(6, 6 + decimal(count).len() as int) =~= decimal(count));
    assert(summary.subrange(summary.len() - file_path.len(), summary.len() as int) =~= file_path);
}

/// A context request whose search is answered, under the status 200, by a
/// document with `entries` as its `results` list is answered with one memory
/// for each entry. Without entries the summary is "No relevant context
/// found."; with entries it names their number and the path of the file.
pub proof fn context_answer_of_a_search(
    file_path: Seq<char>,
    status: HttpStatus,
    text: Vec<u8>,
    document: JsonValue,
    entries: Seq<JsonValue>,
)
    requires
        status.value() == 200,
        decoded(text@) == Ok::<JsonValue, Seq<char>>(document),
        document.items_at("results"@) == Some(entries),
    ensures
        context_answer(file_path, search_outcome(BackendReply::Answered { status, body: Ok(text) })) matches Ok(
            answer,
        ) && answer.memories.len() == entries.len() && answer.context_summary == (if entries.len() == 0 {
            "No relevant context found."@
        } else {
            "Found "@ + decimal(entries.len()) + " relevant memory items related to "@ + file_path
        }),
{
}

/// The answer to a context request holds as many memories as the search
/// found, and a failed search fails the request with the same failure.
pub proof fn context_answer_keeps_what_was_found(file_path: Seq<char>, found: Result<Seq<MemoryItemView>, ErrorView>)
    ensures
        found matches Ok(memories) ==> context_answer(file_path, found) matches Ok(answer) && answer.memories
            == memories,
        found matches Err(e) ==> context_answer(file_path, found) == Err::<ContextFetchResponseView, ErrorView>(e),
{
}

/// A handled call is reported as a success exactly where it has an answer and
/// as an error exactly where it has a failure, whichever operation it was.
pub proof fn reported_outcome_reflects_result<T: View>(
    done: Completion<T>,
    endpoint: Endpoint,
    expected: Result<T::V, ErrorView>,
)
    requires
        completes(done, endpoint, expected),
    ensures
        outcome_of(done.result) == Outcome::Success <==> expected is Ok,
        outcome_of(done.result) == Outcome::Error <==> expected is Err,
{
}

/// An operation that is turned away at its first step is reported as an
/// error.
pub proof fn rejected_call_is_reported_as_error<T>(step: Step<T>, endpoint: Endpoint, failure: ErrorView)
    requires
        begins(step, endpoint, Begin::Reject(failure)),
    ensures
        step matches Step::Done(done) && done.endpoint == endpoint && outcome_of(done.result) == Outcome::Error,
{
}

/// An operation is reported to the metrics sink under the very path by which
/// it is reached: the shared prefix followed by its own path.
pub proof fn reported_name_is_the_full_path(endpoint: Endpoint)
    ensures
        endpoint_name(endpoint) == SCOPE@ + route_path(endpoint),
{
    reveal_strlit("/mcp");
    reveal_strlit("/metrics");
    reveal_strlit("/health");
    reveal_strlit("/context/fetch");
    reveal_strlit("/memory/log");
    reveal_strlit("/task/submit");
    reveal_strlit("/mcp/metrics");
    reveal_strlit("/mcp/health");
    reveal_strlit("/mcp/context/fetch");
    reveal_strlit("/mcp/memory/log");
    reveal_strlit("/mcp/task/submit");
    assert(endpoint_name(endpoint) =~= SCOPE@ + route_path(endpoint));
}

/// A failure below the operations is forwarded as it is: no operation turns
/// one failure into another.
pub proof fn failures_are_forwarded_unchanged(file_path: Seq<char>, failure: ErrorView)
    ensures
        context_answer(file_path, Err(failure)) == Err::<ContextFetchResponseView, ErrorView>(failure),
        log_answer(Err(failure)) == Err::<MemoryLogResponseView, ErrorView>(failure),
        task_answer(Err(failure)) == Err::<TaskSubmitResponseView, ErrorView>(failure),
{
}

} // verus!
