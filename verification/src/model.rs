//! The data carried through one turn: role-tagged chat messages, the static
//! function-schema descriptor that the function-calling variant advertises,
//! and the typed shapes of the two response envelopes.
//!
//! The single-shot variant receives the envelope [`ApiResponse`] directly;
//! the function-calling variant receives [`DataApiResponse`], whose
//! completion sits one level deeper under a `data` field and must be
//! unwrapped before it is logged.

use vstd::prelude::*;

verus! {

/// Who speaks in a chat message.
#[derive(Clone, Copy, Debug, PartialEq, Eq, Structural)]
pub enum Role {
    System,
    User,
    Assistant,
}

/// One role-tagged message of a conversation. Order within a message list is
/// meaningful: it is the conversation history.
#[derive(Clone, Debug)]
pub struct Message {
    pub role: Role,
    pub content: String,
}

/// Token accounting reported by the remote endpoint; informational only.
#[derive(Clone, Copy, Debug)]
pub struct ApiUsage {
    pub prompt_tokens: i32,
    pub completion_tokens: i32,
    pub total_tokens: i32,
}

/// One completion choice of the single-shot envelope.
#[derive(Clone, Debug)]
pub struct Choice {
    pub message: Message,
}

/// The response envelope of the single-shot variant.
#[derive(Clone, Debug)]
pub struct ApiResponse {
    pub choices: Vec<Choice>,
    pub id: String,
    pub object: String,
    pub created: i64,
    pub model: String,
    pub usage: ApiUsage,
}

/// A completion message of the function-calling variant; `function_call` is
/// advertised in the shape but never acted on.
#[derive(Clone, Debug)]
pub struct MessageDetails {
    pub role: Role,
    pub content: String,
    pub function_call: Option<String>,
}

/// One completion choice of the nested envelope.
#[derive(Clone, Debug)]
pub struct DataChoice {
    pub message: MessageDetails,
}

/// The inner record of the nested envelope: what the function-calling
/// variant actually logs.
#[derive(Clone, Debug)]
pub struct DataResponse {
    pub choices: Vec<DataChoice>,
}

/// The response envelope of the function-calling variant: the completion is
/// nested one level deeper, under `data`.
#[derive(Clone, Debug)]
pub struct DataApiResponse {
    pub data: DataResponse,
    pub id: String,
    pub object: String,
    pub created: i64,
    pub model: String,
    pub usage: ApiUsage,
}

/// The one declared parameter of the advertised function schema.
#[derive(Clone, Debug)]
pub struct FunctionArticleText {
    pub type_: String,
    pub description: String,
}

/// The property map of the advertised function schema.
#[derive(Clone, Debug)]
pub struct FunctionProperties {
    pub article_text: FunctionArticleText,
}

/// The parameter descriptor of the advertised function schema.
#[derive(Clone, Debug)]
pub struct FunctionParams {
    pub type_: String,
    pub properties: FunctionProperties,
}

/// The static callable-function descriptor that the function-calling variant
/// attaches to every request. It is inert: no dispatch logic ever invokes it.
#[derive(Clone, Debug)]
pub struct FunctionSchema {
    pub name: String,
    pub description: String,
    pub parameters: FunctionParams,
}

/// The request body of the function-calling variant.
#[derive(Clone, Debug)]
pub struct RequestPayload {
    pub messages: Vec<Message>,
    pub functions: Vec<FunctionSchema>,
}

/// The one extra step of the nested-envelope variant: extract the inner
/// `data` record, the part that is logged and shown.
pub fn unwrap_data(response: DataApiResponse) -> (r: DataResponse)
    ensures
        r == response.data,
{
    response.data
}

} // verus!
