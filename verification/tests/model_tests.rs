use article_chat::model::{ApiUsage, DataApiResponse, DataChoice, DataResponse, MessageDetails,
    Role, unwrap_data};

#[test]
fn unwrap_data_extracts_the_nested_record() {
    let envelope = DataApiResponse {
        data: DataResponse {
            choices: vec![DataChoice {
                message: MessageDetails {
                    role: Role::Assistant,
                    content: "Cats are mammals.".to_string(),
                    function_call: None,
                },
            }],
        },
        id: "resp-1".to_string(),
        object: "completion".to_string(),
        created: 1_700_000_000,
        model: "gpt-3.5-turbo-0613".to_string(),
        usage: ApiUsage { prompt_tokens: 10, completion_tokens: 5, total_tokens: 15 },
    };
    let inner = unwrap_data(envelope);
    assert_eq!(inner.choices.len(), 1);
    assert_eq!(inner.choices[0].message.content, "Cats are mammals.");
    assert!(inner.choices[0].message.function_call.is_none());
}
