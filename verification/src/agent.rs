//! The agent's turn: what it remembers of a message, what it asks the model, and what it keeps
//! of the answer.
use vstd::prelude::*;
use crate::deps::{is_uuid_v4_text, new_uuid_v4_string, utc_now_timestamp_millis};

verus! {

/// How many remembered messages of a session the agent shows the model.
pub const CONTEXT_LIMIT: usize = 50;

/// How the agent behaves.
#[derive(Debug, PartialEq, Eq)]
pub struct AgentConfig {
    /// The system prompt that opens every conversation with the model.
    pub system_prompt: String,
}

impl Clone for AgentConfig {
    fn clone(&self) -> (r: Self)
        ensures
            r == *self,
    {
        AgentConfig { system_prompt: self.system_prompt.clone() }
    }
}

/// One message of a conversation with the model.
#[derive(Debug, Clone, PartialEq, Eq)]
pub struct LlmMessage {
    pub role: String,
    pub content: String,
}

/// What the agent asks the model.
#[derive(Debug, Clone, PartialEq, Eq)]
pub struct LlmRequest {
    pub messages: Vec<LlmMessage>,
    pub config: AgentConfig,
}

/// The tokens that a call of the model used.
#[derive(Debug, Clone, Copy, PartialEq, Eq)]
pub struct TokenUsage {
    pub input_tokens: u64,
    pub output_tokens: u64,
}

/// What the model answered.
#[derive(Debug, Clone, PartialEq, Eq)]
pub struct LlmResponse {
    pub content: String,
    pub usage: TokenUsage,
}

/// What happened in a turn of the agent.
#[derive(Debug, Clone, PartialEq, Eq)]
pub enum AgentEvent {
    /// The message of the session was answered.
    Completed { session_id: String },
}

/// What a remembered message carries besides its text.
#[derive(Debug, Clone, Copy, PartialEq, Eq)]
pub enum EntryMetadata {
    /// Nothing: a message of the user.
    Null,
    /// The tokens that the answer took: a message of the assistant.
    Usage(TokenUsage),
}

/// One remembered message.
#[derive(Debug, Clone, PartialEq, Eq)]
pub struct MemoryEntry {
    pub id: String,
    pub session_id: String,
    pub role: String,
    pub content: String,
    /// Milliseconds since the Unix epoch.
    pub created_at: i64,
    pub metadata: EntryMetadata,
}

/// A question to the memory: the latest messages of a session.
#[derive(Debug, Clone, PartialEq, Eq)]
pub struct MemoryQuery {
    pub session_id: String,
    pub limit: Option<usize>,
    /// Only messages before this time, in milliseconds since the Unix epoch.
    pub before: Option<i64>,
}

/// Whether `e` remembers the message `content` that the user sent in `session_id`.
pub open spec fn is_user_entry(e: MemoryEntry, session_id: Seq<char>, content: Seq<char>) -> bool {
    &&& e.session_id@ == session_id
    &&& e.role@ == "user"@
    &&& e.content@ == content
    &&& e.metadata == EntryMetadata::Null
}

/// The memory of the message `content` that the user sent in `session_id`.
pub fn user_entry(id: String, session_id: &str, content: &str, created_at: i64) -> (r: MemoryEntry)
    ensures
        is_user_entry(r, session_id@, content@),
        r.id == id,
        r.created_at == created_at,
{
    MemoryEntry {
        id,
        session_id: session_id.to_string(),
        role: "user".to_string(),
        content: content.to_string(),
        created_at,
        metadata: EntryMetadata::Null,
    }
}

/// The memory of the message `content` that the user sent in `session_id`, with a fresh
/// random id and the time now.
pub fn user_entry_now(session_id: &str, content: &str) -> (r: MemoryEntry)
    ensures
        is_user_entry(r, session_id@, content@),
        is_uuid_v4_text(r.id@),
{
    user_entry(new_uuid_v4_string(), session_id, content, utc_now_timestamp_millis())
}

/// The question for the context of a turn: the latest messages of the session, at most
/// `CONTEXT_LIMIT` of them.
pub fn context_query(session_id: &str) -> (r: MemoryQuery)
    ensures
        r.session_id@ == session_id@,
        r.limit == Some(CONTEXT_LIMIT),
        r.before is None,
{
    MemoryQuery { session_id: session_id.to_string(), limit: Some(CONTEXT_LIMIT), before: None }
}

/// Whether `m` is the conversation shown to the model: the system prompt, then the remembered
/// messages in order, each with its role.
pub open spec fn is_conversation(m: Seq<LlmMessage>, system_prompt: Seq<char>, context: Seq<MemoryEntry>) -> bool {
    &&& m.len() == context.len() + 1
    &&& m[0].role@ == "system"@
    &&& m[0].content@ == system_prompt
    &&& forall|i: int|
        0 <= i < context.len() ==> #[trigger] m[i + 1].role == context[i].role && m[i
            + 1].content == context[i].content
}

/// The conversation shown to the model: the system prompt, then the context.
pub fn build_llm_messages(system_prompt: &str, context: &Vec<MemoryEntry>) -> (r: Vec<LlmMessage>)
    ensures
        is_conversation(r@, system_prompt@, context@),
{
    let mut messages: Vec<LlmMessage> = Vec::new();
    messages.push(LlmMessage { role: "system".to_string(), content: system_prompt.to_string() });
    for i in 0..context.len()
        invariant
            messages@.len() == i + 1,
            messages@[0].role@ == "system"@,
            messages@[0].content@ == system_prompt@,
            forall|j: int|
                0 <= j < i ==> #[trigger] messages@[j + 1].role == context@[j].role
                    && messages@[j + 1].content == context@[j].content,
    {
        let entry = &context[i];
        messages.push(LlmMessage { role: entry.role.clone(), content: entry.content.clone() });
    }
    messages
}

/// What the agent asks the model: the conversation, with the agent's configuration.
pub fn llm_request(config: &AgentConfig, context: &Vec<MemoryEntry>) -> (r: LlmRequest)
    ensures
        is_conversation(r.messages@, config.system_prompt@, context@),
        r.config == *config,
{
    let messages = build_llm_messages(config.system_prompt.as_str(), context);
    LlmRequest { messages, config: config.clone() }
}

/// Whether `e` remembers the answer `response` given in `session_id`.
pub open spec fn is_assistant_entry(e: MemoryEntry, session_id: Seq<char>, response: LlmResponse) -> bool {
    &&& e.session_id@ == session_id
    &&& e.role@ == "assistant"@
    &&& e.content == response.content
    &&& e.metadata == EntryMetadata::Usage(response.usage)
}

/// The memory of the answer `response` given in `session_id`.
pub fn assistant_entry(id: String, session_id: &str, response: &LlmResponse, created_at: i64) -> (r:
    MemoryEntry)
    ensures
        is_assistant_entry(r, session_id@, *response),
        r.id == id,
        r.created_at == created_at,
{
    MemoryEntry {
        id,
        session_id: session_id.to_string(),
        role: "assistant".to_string(),
        content: response.content.clone(),
        created_at,
        metadata: EntryMetadata::Usage(response.usage),
    }
}

/// The memory of the answer `response` given in `session_id`, with a fresh random id and the
/// time now.
pub fn assistant_entry_now(session_id: &str, response: &LlmResponse) -> (r: MemoryEntry)
    ensures
        is_assistant_entry(r, session_id@, *response),
        is_uuid_v4_text(r.id@),
{
    assistant_entry(new_uuid_v4_string(), session_id, response, utc_now_timestamp_millis())
}

/// The outcome of a turn: the reply, and the event that the session was answered.
pub fn completion(session_id: &str, response: &LlmResponse) -> (r: (String, AgentEvent))
    ensures
        r.0 == response.content,
        r.1 matches AgentEvent::Completed { session_id: s } && s@ == session_id@,
{
    (response.content.clone(), AgentEvent::Completed { session_id: session_id.to_string() })
}

} // verus!
