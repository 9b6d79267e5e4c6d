//! Building the ordered message list that one turn sends.
//!
//! The single-shot variant always sends exactly two messages: a fixed system
//! primer and one user message that splices the article text and the query
//! into a fixed template. The function-calling variant seeds a conversation
//! with the article once, then appends each query as a fresh user message,
//! and advertises a static function schema beside the messages.

use vstd::prelude::*;
use crate::model::{FunctionArticleText, FunctionParams, FunctionProperties, FunctionSchema,
    Message, RequestPayload, Role};

verus! {

/// The fixed system primer that opens every conversation.
pub open spec fn system_primer_text() -> Seq<char> {
    "you are a useful assistant"@
}

/// The single-shot user message: the fixed template with the article text
/// and the query spliced in.
pub open spec fn single_shot_user_text(article: Seq<char>, query: Seq<char>) -> Seq<char> {
    "Based on this article: "@ + article + ", "@ + query
}

/// The seed user message of the function-calling variant, embedding the
/// article once.
pub open spec fn article_seed_text(article: Seq<char>) -> Seq<char> {
    "here is an article input: "@ + article
        + ", please return information based on the article when asked"@
}

/// The two messages of a single-shot turn: the system primer, then the
/// templated user message.
pub open spec fn is_single_shot_messages(msgs: Seq<Message>, article: Seq<char>, query: Seq<char>) -> bool {
    &&& msgs.len() == 2
    &&& msgs[0].role == Role::System
    &&& msgs[0].content@ == system_primer_text()
    &&& msgs[1].role == Role::User
    &&& msgs[1].content@ == single_shot_user_text(article, query)
}

/// The message list a function-calling turn sends, given what was carried
/// over: the prior messages unchanged (or, with nothing carried over, the
/// two-message seed), followed by the query as one new user message.
pub open spec fn is_extended_conversation(
    previous: Option<Seq<Message>>,
    article: Seq<char>,
    query: Seq<char>,
    msgs: Seq<Message>,
) -> bool {
    &&& match previous {
        Option::Some(prev) => {
            &&& msgs.len() == prev.len() + 1
            &&& forall|i: int| 0 <= i < prev.len() ==> msgs[i] == prev[i]
        },
        Option::None => {
            &&& msgs.len() == 3
            &&& msgs[0].role == Role::System
            &&& msgs[0].content@ == system_primer_text()
            &&& msgs[1].role == Role::User
            &&& msgs[1].content@ == article_seed_text(article)
        },
    }
    &&& msgs.len() > 0
    &&& msgs[msgs.len() - 1].role == Role::User
    &&& msgs[msgs.len() - 1].content@ == query
}

/// The static descriptor the function-calling variant advertises. It names a
/// summary helper but nothing ever dispatches it.
pub open spec fn is_article_summary_schema(f: FunctionSchema) -> bool {
    &&& f.name@ == "get_article_summary"@
    &&& f.description@ == "Returns a summary of the article text"@
    &&& f.parameters.type_@ == "object"@
    &&& f.parameters.properties.article_text.type_@ == "string"@
    &&& f.parameters.properties.article_text.description@ == "Content of the article"@
}

/// The view of an optional message list.
pub open spec fn messages_view(previous: Option<Vec<Message>>) -> Option<Seq<Message>> {
    match previous {
        Option::Some(v) => Option::Some(v@),
        Option::None => Option::None,
    }
}

/// Build the two messages of a single-shot turn. Every turn builds them
/// afresh: this variant keeps no memory of prior turns.
pub fn build_single_shot_messages(article: &str, query: &str) -> (r: Vec<Message>)
    ensures
        is_single_shot_messages(r@, article@, query@),
{
    let mut msgs: Vec<Message> = Vec::new();
    msgs.push(Message {
        role: Role::System,
        content: String::from_str("you are a useful assistant"),
    });
    let content = String::from_str("Based on this article: ").concat(article).concat(
        ", ",
    ).concat(query);
    msgs.push(Message { role: Role::User, content });
    msgs
}

/// Build the message list of a function-calling turn: carry the prior
/// messages forward unchanged (or seed a fresh conversation with the system
/// primer and the article), then append the query as a new user message.
pub fn extend_conversation(previous: Option<Vec<Message>>, article: &str, query: &str) -> (r: Vec<
    Message,
>)
    ensures
        is_extended_conversation(messages_view(previous), article@, query@, r@),
{
    let mut msgs: Vec<Message> = match previous {
        Option::Some(prev) => prev,
        Option::None => {
            let mut seed: Vec<Message> = Vec::new();
            seed.push(Message {
                role: Role::System,
                content: String::from_str("you are a useful assistant"),
            });
            let embedded = String::from_str("here is an article input: ").concat(article).concat(
                ", please return information based on the article when asked",
            );
            seed.push(Message { role: Role::User, content: embedded });
            seed
        },
    };
    msgs.push(Message { role: Role::User, content: String::from_str(query) });
    msgs
}

/// Build the static function-schema descriptor.
pub fn build_function_schema() -> (r: FunctionSchema)
    ensures
        is_article_summary_schema(r),
{
    FunctionSchema {
        name: String::from_str("get_article_summary"),
        description: String::from_str("Returns a summary of the article text"),
        parameters: FunctionParams {
            type_: String::from_str("object"),
            properties: FunctionProperties {
                article_text: FunctionArticleText {
                    type_: String::from_str("string"),
                    description: String::from_str("Content of the article"),
                },
            },
        },
    }
}

/// Pair a message list with the advertised schema to form the request body
/// of a function-calling turn. The schema list always holds exactly the one
/// static descriptor.
pub fn build_request_payload(messages: Vec<Message>) -> (r: RequestPayload)
    ensures
        r.messages == messages,
        r.functions@.len() == 1,
        is_article_summary_schema(r.functions@[0]),
{
    let mut functions: Vec<FunctionSchema> = Vec::new();
    functions.push(build_function_schema());
    RequestPayload { messages, functions }
}

} // verus!
