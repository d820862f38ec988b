//! The shapes that cross the gateway: what callers send and receive, and what
//! the gateway sends to its backends.

use crate::json::JsonNumber;
use vstd::prelude::*;

verus! {

/// `uuid::Uuid`, the identifier of a chat session. It is carried, not read.
#[verifier::external_type_specification]
#[verifier::external_body]
pub struct ExUuid(uuid::Uuid);

/// A caller asks for stored context that relates to a file.
#[derive(Clone, Debug, PartialEq, Eq)]
pub struct ContextFetchRequest {
    pub file_path: String,
    pub file_content: Option<String>,
    pub language: Option<String>,
    pub limit: Option<usize>,
}

/// The answer to a [`ContextFetchRequest`].
#[derive(Debug, PartialEq, Eq)]
pub struct ContextFetchResponse {
    pub memories: Vec<MemoryItem>,
    pub context_summary: String,
}

/// One search result of the memory backend, in normal form.
#[derive(Clone, Debug, PartialEq, Eq)]
pub struct MemoryItem {
    pub id: String,
    pub content: String,
    pub tier: String,
    /// The score as the backend sent it; zero where it sent none.
    pub confidence_score: JsonNumber,
    pub created_at: String,
}

/// A caller reports an interaction with a file, to be remembered.
#[derive(Debug, PartialEq, Eq)]
pub struct MemoryLogRequest {
    pub file_path: String,
    /// What was done to the file: `edit`, `save`, `run`, `debug`, ...
    pub action: String,
    pub content: Option<String>,
    pub outcome: Option<String>,
    /// Whatever else the caller sent along. It is carried, not read.
    pub metadata: Option<serde_json::Value>,
}

/// The answer to a [`MemoryLogRequest`].
#[derive(Clone, Debug, PartialEq, Eq)]
pub struct MemoryLogResponse {
    pub memory_id: String,
    pub stored: bool,
    pub message: String,
}

/// A caller hands a task to the intelligence backend.
#[derive(Clone, Debug, PartialEq, Eq)]
pub struct TaskSubmitRequest {
    pub task_description: String,
    pub file_context: Option<String>,
    pub session_id: Option<uuid::Uuid>,
}

/// The answer to a [`TaskSubmitRequest`].
#[derive(Clone, Debug, PartialEq, Eq)]
pub struct TaskSubmitResponse {
    pub session_id: String,
    pub response: String,
    pub tokens_used: Option<i32>,
}

/// The state of the gateway and of the two backends behind it.
#[derive(Clone, Debug, PartialEq, Eq)]
pub struct HealthResponse {
    pub status: String,
    pub version: String,
    pub memory_service: bool,
    pub intelligence_service: bool,
}

/// A failure with optional further details.
#[derive(Clone, Debug, PartialEq, Eq)]
pub struct ErrorResponse {
    pub error: String,
    pub details: Option<String>,
}

/// What the memory backend is asked when it searches.
#[derive(Clone, Debug, PartialEq, Eq)]
pub struct MemorySearchRequest {
    pub query: String,
    pub limit: Option<usize>,
    pub tier: Option<String>,
}

/// What the memory backend is asked when it stores.
#[derive(Clone, Debug, PartialEq, Eq)]
pub struct MemoryStoreRequest {
    /// Sent under the name `type`.
    pub memory_type: String,
    pub input_context: String,
    pub output_response: Option<String>,
    pub outcome: Option<String>,
    pub tier: String,
    pub tags: Option<Vec<String>>,
}

/// What the intelligence backend is asked.
#[derive(Clone, Debug, PartialEq, Eq)]
pub struct ChatMessageRequest {
    pub message: String,
    pub session_id: Option<uuid::Uuid>,
    pub use_memory: bool,
}

/// What the intelligence backend answers.
#[derive(Clone, Debug, PartialEq, Eq)]
pub struct ChatMessageResponse {
    pub session_id: String,
    pub response: String,
    pub tokens_used: Option<i32>,
}

/// The content of a [`MemoryItem`].
pub struct MemoryItemView {
    pub id: Seq<char>,
    pub content: Seq<char>,
    pub tier: Seq<char>,
    pub confidence_score: JsonNumber,
    pub created_at: Seq<char>,
}

impl View for MemoryItem {
    type V = MemoryItemView;

    open spec fn view(&self) -> MemoryItemView {
        MemoryItemView {
            id: self.id@,
            content: self.content@,
            tier: self.tier@,
            confidence_score: self.confidence_score,
            created_at: self.created_at@,
        }
    }
}

impl DeepView for MemoryItem {
    type V = MemoryItemView;

    open spec fn deep_view(&self) -> MemoryItemView {
        self@
    }
}

/// The content of a [`ContextFetchResponse`].
pub struct ContextFetchResponseView {
    pub memories: Seq<MemoryItemView>,
    pub context_summary: Seq<char>,
}

impl View for ContextFetchResponse {
    type V = ContextFetchResponseView;

    open spec fn view(&self) -> ContextFetchResponseView {
        ContextFetchResponseView {
            memories: self.memories.deep_view(),
            context_summary: self.context_summary@,
        }
    }
}

/// The content of a [`MemoryLogResponse`].
pub struct MemoryLogResponseView {
    pub memory_id: Seq<char>,
    pub stored: bool,
    pub message: Seq<char>,
}

impl View for MemoryLogResponse {
    type V = MemoryLogResponseView;

    open spec fn view(&self) -> MemoryLogResponseView {
        MemoryLogResponseView { memory_id: self.memory_id@, stored: self.stored, message: self.message@ }
    }
}

/// The content of a [`TaskSubmitResponse`].
pub struct TaskSubmitResponseView {
    pub session_id: Seq<char>,
    pub response: Seq<char>,
    pub tokens_used: Option<i32>,
}

impl View for TaskSubmitResponse {
    type V = TaskSubmitResponseView;

    open spec fn view(&self) -> TaskSubmitResponseView {
        TaskSubmitResponseView {
            session_id: self.session_id@,
            response: self.response@,
            tokens_used: self.tokens_used,
        }
    }
}

/// The content of a [`HealthResponse`].
pub struct HealthResponseView {
    pub status: Seq<char>,
    pub version: Seq<char>,
    pub memory_service: bool,
    pub intelligence_service: bool,
}

impl View for HealthResponse {
    type V = HealthResponseView;

    open spec fn view(&self) -> HealthResponseView {
        HealthResponseView {
            status: self.status@,
            version: self.version@,
            memory_service: self.memory_service,
            intelligence_service: self.intelligence_service,
        }
    }
}

/// The content of a [`MemorySearchRequest`].
pub struct MemorySearchRequestView {
    pub query: Seq<char>,
    pub limit: Option<usize>,
    pub tier: Option<Seq<char>>,
}

impl View for MemorySearchRequest {
    type V = MemorySearchRequestView;

    open spec fn view(&self) -> MemorySearchRequestView {
        MemorySearchRequestView { query: self.query@, limit: self.limit, tier: self.tier.deep_view() }
    }
}

/// The content of a [`MemoryStoreRequest`].
pub struct MemoryStoreRequestView {
    pub memory_type: Seq<char>,
    pub input_context: Seq<char>,
    pub output_response: Option<Seq<char>>,
    pub outcome: Option<Seq<char>>,
    pub tier: Seq<char>,
    pub tags: Option<Seq<Seq<char>>>,
}

impl View for MemoryStoreRequest {
    type V = MemoryStoreRequestView;

    open spec fn view(&self) -> MemoryStoreRequestView {
        MemoryStoreRequestView {
            memory_type: self.memory_type@,
            input_context: self.input_context@,
            output_response: self.output_response.deep_view(),
            outcome: self.outcome.deep_view(),
            tier: self.tier@,
            tags: self.tags.deep_view(),
        }
    }
}

/// The content of a [`ChatMessageRequest`].
pub struct ChatMessageRequestView {
    pub message: Seq<char>,
    pub session_id: Option<uuid::Uuid>,
    pub use_memory: bool,
}

impl View for ChatMessageRequest {
    type V = ChatMessageRequestView;

    open spec fn view(&self) -> ChatMessageRequestView {
        ChatMessageRequestView {
            message: self.message@,
            session_id: self.session_id,
            use_memory: self.use_memory,
        }
    }
}

} // verus!
