use article_chat::conversation::{build_function_schema, build_request_payload,
    build_single_shot_messages, extend_conversation};
use article_chat::model::{Message, Role};

#[test]
fn single_shot_user_message_matches_template() {
    let msgs = build_single_shot_messages("Cats are mammals.", "What are cats?");
    assert_eq!(msgs.len(), 2);
    assert_eq!(msgs[1].role, Role::User);
    assert_eq!(
        msgs[1].content,
        "Based on this article: Cats are mammals., What are cats?"
    );
}

#[test]
fn single_shot_opens_with_system_primer() {
    let msgs = build_single_shot_messages("T", "Q");
    assert_eq!(msgs[0].role, Role::System);
    assert_eq!(msgs[0].content, "you are a useful assistant");
}

#[test]
fn single_shot_with_empty_inputs() {
    let msgs = build_single_shot_messages("", "");
    assert_eq!(msgs[1].content, "Based on this article: , ");
}

#[test]
fn fresh_conversation_is_seeded_with_article() {
    let msgs = extend_conversation(None, "Cats are mammals.", "What are cats?");
    assert_eq!(msgs.len(), 3);
    assert_eq!(msgs[0].role, Role::System);
    assert_eq!(msgs[0].content, "you are a useful assistant");
    assert_eq!(msgs[1].role, Role::User);
    assert_eq!(
        msgs[1].content,
        "here is an article input: Cats are mammals., please return information based on the article when asked"
    );
    assert_eq!(msgs[2].role, Role::User);
    assert_eq!(msgs[2].content, "What are cats?");
}

#[test]
fn carried_conversation_is_extended_in_order() {
    let prior = vec![
        Message { role: Role::System, content: "you are a useful assistant".to_string() },
        Message { role: Role::User, content: "first question".to_string() },
        Message { role: Role::Assistant, content: "first answer".to_string() },
    ];
    let msgs = extend_conversation(Some(prior), "unused article", "second question");
    assert_eq!(msgs.len(), 4);
    assert_eq!(msgs[0].content, "you are a useful assistant");
    assert_eq!(msgs[1].content, "first question");
    assert_eq!(msgs[2].content, "first answer");
    assert_eq!(msgs[3].role, Role::User);
    assert_eq!(msgs[3].content, "second question");
}

#[test]
fn function_schema_is_the_static_descriptor() {
    let f = build_function_schema();
    assert_eq!(f.name, "get_article_summary");
    assert_eq!(f.description, "Returns a summary of the article text");
    assert_eq!(f.parameters.type_, "object");
    assert_eq!(f.parameters.properties.article_text.type_, "string");
    assert_eq!(
        f.parameters.properties.article_text.description,
        "Content of the article"
    );
}

#[test]
fn payload_carries_messages_and_one_schema() {
    let msgs = extend_conversation(None, "T", "Q");
    let payload = build_request_payload(msgs);
    assert_eq!(payload.messages.len(), 3);
    assert_eq!(payload.functions.len(), 1);
    assert_eq!(payload.functions[0].name, "get_article_summary");
}
