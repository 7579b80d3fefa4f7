//! The client of an OpenAI-compatible chat completion API.
use vstd::prelude::*;
use crate::text::{concat_str, ends_with, str_ends_with, trim_end_char, trim_end_matches_char, lemma_trim_end_char};

verus! {

/// The most tokens that a reply may take.
pub const MAX_TOKENS: u32 = 4096;

/// The text that stands for a reply when the API returned no choice.
pub const EMPTY_REPLY: &'static str = "(empty response)";

/// The API root for `base_url`: without trailing slashes, and ending in `/v1`, which is added
/// unless it is already there.
pub open spec fn normalized_base(base_url: Seq<char>) -> Seq<char> {
    let b = trim_end_char(base_url, '/');
    if ends_with(b, "/v1"@) {
        b
    } else {
        b + "/v1"@
    }
}

/// What a client is: its API root, its key and its model.
pub struct LlmClientView {
    pub base_url: Seq<char>,
    pub api_key: Seq<char>,
    pub model: Seq<char>,
}

/// A client of the chat completion API.
#[derive(Debug, Clone)]
pub struct LlmClient {
    base_url: String,
    api_key: String,
    model: String,
}

impl View for LlmClient {
    type V = LlmClientView;

    closed spec fn view(&self) -> LlmClientView {
        LlmClientView { base_url: self.base_url@, api_key: self.api_key@, model: self.model@ }
    }
}

/// One message of a chat.
#[derive(Debug, Clone, PartialEq, Eq)]
pub struct ChatMessage {
    pub role: String,
    pub content: String,
}

/// A request for a chat completion.
#[derive(Debug, Clone, PartialEq, Eq)]
pub struct ChatRequest {
    pub model: String,
    pub messages: Vec<ChatMessage>,
    pub max_tokens: u32,
}

/// One completion of a chat.
#[derive(Debug, Clone, PartialEq, Eq)]
pub struct Choice {
    pub message: ChatMessage,
}

/// The answer of the API.
#[derive(Debug, Clone, PartialEq, Eq)]
pub struct ChatResponse {
    pub choices: Vec<Choice>,
}

impl LlmClient {
    /// A client of the API at `base_url` that asks `model` with the key `api_key`.
    pub fn new(base_url: &str, api_key: &str, model: &str) -> (r: Self)
        ensures
            r@.base_url == normalized_base(base_url@),
            r@.api_key == api_key@,
            r@.model == model@,
    {
        let base = trim_end_matches_char(base_url, '/');
        // If base_url already ends with /v1, don't double it
        let base = if str_ends_with(base.as_str(), "/v1") {
            base
        } else {
            concat_str(base.as_str(), "/v1")
        };
        LlmClient { base_url: base, api_key: api_key.to_string(), model: model.to_string() }
    }

    /// Where chat completions are asked for.
    pub fn completions_url(&self) -> (r: String)
        ensures
            r@ == self@.base_url + "/chat/completions"@,
    {
        concat_str(self.base_url.as_str(), "/chat/completions")
    }

    /// The value of the `Authorization` header.
    pub fn authorization(&self) -> (r: String)
        ensures
            r@ == "Bearer "@ + self@.api_key,
    {
        concat_str("Bearer ", self.api_key.as_str())
    }

    /// The model that the client asks.
    pub fn model(&self) -> (r: &str)
        ensures
            r@ == self@.model,
    {
        self.model.as_str()
    }

    /// The request that asks the model about `user_message` alone.
    pub fn chat_request(&self, user_message: &str) -> (r: ChatRequest)
        ensures
            r.model@ == self@.model,
            r.messages@.len() == 1,
            r.messages@[0].role@ == "user"@,
            r.messages@[0].content@ == user_message@,
            r.max_tokens == MAX_TOKENS,
    {
        let mut messages: Vec<ChatMessage> = Vec::new();
        messages.push(ChatMessage { role: "user".to_string(), content: user_message.to_string() });
        ChatRequest { model: self.model.clone(), messages, max_tokens: MAX_TOKENS }
    }
}

/// The reply in an answer: the text of its first choice, or a mark where there is none.
pub fn reply_text(resp: ChatResponse) -> (r: String)
    ensures
        resp.choices@.len() > 0 ==> r == resp.choices@[0].message.content,
        resp.choices@.len() == 0 ==> r@ == EMPTY_REPLY@,
{
    let mut choices = resp.choices;
    if choices.len() > 0 {
        let first = choices.remove(0);
        first.message.content
    } else {
        EMPTY_REPLY.to_string()
    }
}

/// The API root of a client made from an API root is that root: normalizing twice changes
/// nothing.
pub proof fn lemma_normalized_base_idempotent(base_url: Seq<char>)
    ensures
        normalized_base(normalized_base(base_url)) == normalized_base(base_url),
        ends_with(normalized_base(base_url), "/v1"@),
{
    reveal_strlit("/v1");
    let b = trim_end_char(base_url, '/');
    lemma_trim_end_char(base_url, '/');
    let n = normalized_base(base_url);
    if ends_with(b, "/v1"@) {
        assert(b.last() == b.subrange(b.len() - 3, b.len() as int)[2]);
    } else {
        assert((b + "/v1"@).subrange(b.len() as int, b.len() + 3int) =~= "/v1"@);
    }
    assert(n.last() == '1');
    assert(trim_end_char(n, '/') == n);
}

} // verus!
