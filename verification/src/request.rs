//! Assembling everything a turn needs on the wire, short of sending it.
//!
//! A prepared request fixes the endpoint, the `Authorization` header and the
//! body values. Preparation is gated on the credential: with no credential
//! there is nothing to send, and the caller must treat that as fatal, so a
//! missing credential provably yields no prepared request and therefore no
//! network call.

use vstd::prelude::*;
use crate::conversation::{build_request_payload, build_single_shot_messages, extend_conversation,
    is_article_summary_schema, is_extended_conversation, is_single_shot_messages, messages_view};
use crate::errors::FatalError;
use crate::model::{Message, RequestPayload};

verus! {

/// The fixed completion endpoint.
pub open spec fn endpoint_text() -> Seq<char> {
    "https://api.openai.com/v1/engines/gpt-3.5-turbo-0613/completions"@
}

/// The `Authorization` header value for a given credential.
pub open spec fn bearer_text(credential: Seq<char>) -> Seq<char> {
    "Bearer "@ + credential
}

/// A single-shot request, ready to send: the body is the bare message list.
pub struct PreparedRequest {
    pub url: String,
    pub auth_header: String,
    pub messages: Vec<Message>,
}

/// A function-calling request, ready to send: the body carries the message
/// list and the advertised schema.
pub struct PreparedFnRequest {
    pub url: String,
    pub auth_header: String,
    pub payload: RequestPayload,
}

/// Prepare a single-shot turn. Succeeds exactly when a credential is at
/// hand; the prepared request then points at the fixed endpoint, carries the
/// bearer header for that credential, and holds the two templated messages.
pub fn prepare_single_shot(article: &str, query: &str, credential: Option<String>) -> (r: Result<
    PreparedRequest,
    FatalError,
>)
    ensures
        match (credential, r) {
            (Option::None, Result::Err(e)) => e == FatalError::MissingCredential,
            (Option::Some(key), Result::Ok(req)) => {
                &&& req.url@ == endpoint_text()
                &&& req.auth_header@ == bearer_text(key@)
                &&& is_single_shot_messages(req.messages@, article@, query@)
            },
            _ => false,
        },
{
    match credential {
        Option::None => Result::Err(FatalError::MissingCredential),
        Option::Some(key) => {
            let messages = build_single_shot_messages(article, query);
            Result::Ok(PreparedRequest {
                url: String::from_str(
                    "https://api.openai.com/v1/engines/gpt-3.5-turbo-0613/completions",
                ),
                auth_header: String::from_str("Bearer ").concat(key.as_str()),
                messages,
            })
        },
    }
}

/// Prepare a function-calling turn. Succeeds exactly when a credential is at
/// hand; the body then extends the carried-over conversation (or a fresh
/// seed) with the query and advertises the one static schema.
pub fn prepare_function_call(
    article: &str,
    query: &str,
    previous: Option<Vec<Message>>,
    credential: Option<String>,
) -> (r: Result<PreparedFnRequest, FatalError>)
    ensures
        match (credential, r) {
            (Option::None, Result::Err(e)) => e == FatalError::MissingCredential,
            (Option::Some(key), Result::Ok(req)) => {
                &&& req.url@ == endpoint_text()
                &&& req.auth_header@ == bearer_text(key@)
                &&& is_extended_conversation(
                    messages_view(previous),
                    article@,
                    query@,
                    req.payload.messages@,
                )
                &&& req.payload.functions@.len() == 1
                &&& is_article_summary_schema(req.payload.functions@[0])
            },
            _ => false,
        },
{
    match credential {
        Option::None => Result::Err(FatalError::MissingCredential),
        Option::Some(key) => {
            let messages = extend_conversation(previous, article, query);
            let payload = build_request_payload(messages);
            Result::Ok(PreparedFnRequest {
                url: String::from_str(
                    "https://api.openai.com/v1/engines/gpt-3.5-turbo-0613/completions",
                ),
                auth_header: String::from_str("Bearer ").concat(key.as_str()),
                payload,
            })
        },
    }
}

} // verus!
