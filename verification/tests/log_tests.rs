use article_chat::errors::TurnError;
use article_chat::response_log::update_json_data;
use article_chat::session::{next_state, process_turn, SessionState, TurnResult};

fn record(text: &str) -> serde_json::Value {
    serde_json::from_str(text).unwrap()
}

#[test]
fn append_to_absent_log_yields_single_record_array() {
    let rec = record("{\"id\":\"r1\"}");
    let out = update_json_data(None, rec.clone());
    let expected = serde_json::to_string_pretty(&vec![rec]).unwrap();
    assert_eq!(out, expected);
}

#[test]
fn append_to_empty_array_yields_single_record_array() {
    let rec = record("{\"id\":\"r1\"}");
    let out = update_json_data(Some("[]"), rec.clone());
    let expected = serde_json::to_string_pretty(&vec![rec]).unwrap();
    assert_eq!(out, expected);
}

#[test]
fn append_to_malformed_log_behaves_as_if_empty() {
    let rec = record("{\"id\":\"r1\"}");
    let out = update_json_data(Some("this is not json"), rec.clone());
    let expected = serde_json::to_string_pretty(&vec![rec]).unwrap();
    assert_eq!(out, expected);
}

#[test]
fn append_preserves_prior_records_in_order() {
    let r1 = record("{\"id\":\"r1\",\"created\":1}");
    let r2 = record("{\"id\":\"r2\",\"created\":2}");
    let first = update_json_data(None, r1.clone());
    let second = update_json_data(Some(&first), r2.clone());
    let expected = serde_json::to_string_pretty(&vec![r1, r2]).unwrap();
    assert_eq!(second, expected);
}

#[test]
fn rewritten_log_is_valid_json() {
    let rec = record("{\"usage\":{\"total_tokens\":3}}");
    let out = update_json_data(Some("[]"), rec.clone());
    let parsed: Vec<serde_json::Value> = serde_json::from_str(&out).unwrap();
    assert_eq!(parsed, vec![rec]);
}

#[test]
fn rewritten_log_parses_back_as_the_appended_array() {
    let r1 = record("[1,2]");
    let r2 = record("{\"nested\":{\"deep\":[true,null]}}");
    let first = update_json_data(None, r1.clone());
    let second = update_json_data(Some(&first), r2.clone());
    let parsed: Vec<serde_json::Value> = serde_json::from_str(&second).unwrap();
    assert_eq!(parsed, vec![r1, r2]);
}

#[test]
fn failed_turn_leaves_log_untouched() {
    let r = process_turn(Some("[{\"id\":\"r1\"}]"), Err(TurnError::Deserialize));
    match r {
        TurnResult::Skipped(e) => assert_eq!(e, TurnError::Deserialize),
        _ => panic!("a failed turn must be skipped, with no new log text"),
    }
}

#[test]
fn network_failure_is_skipped() {
    let r = process_turn(None, Err(TurnError::Network));
    match r {
        TurnResult::Skipped(e) => assert_eq!(e, TurnError::Network),
        _ => panic!("a failed turn must be skipped"),
    }
}

#[test]
fn bad_status_is_skipped() {
    let r = process_turn(Some("[]"), Err(TurnError::HttpStatus));
    match r {
        TurnResult::Skipped(e) => assert_eq!(e, TurnError::HttpStatus),
        _ => panic!("a failed turn must be skipped"),
    }
}

#[test]
fn successful_turn_appends_record() {
    let rec = record("{\"id\":\"r1\"}");
    let r = process_turn(None, Ok(rec.clone()));
    match r {
        TurnResult::Logged(text) => {
            assert_eq!(text, serde_json::to_string_pretty(&vec![rec]).unwrap());
        },
        _ => panic!("a parsed record must be logged"),
    }
}

#[test]
fn two_turn_session_logs_two_records_then_ends() {
    let r1 = record("{\"answer\":\"Cats are mammals.\"}");
    let r2 = record("{\"answer\":\"They eat meat.\"}");

    let mut state = SessionState::Prompting;
    let mut log_text: Option<String> = None;

    let first = process_turn(log_text.as_deref(), Ok(r1.clone()));
    match first {
        TurnResult::Logged(text) => log_text = Some(text),
        _ => panic!("first turn must be logged"),
    }
    state = next_state(state, "0\n");
    assert_eq!(state, SessionState::Prompting);

    let second = process_turn(log_text.as_deref(), Ok(r2.clone()));
    match second {
        TurnResult::Logged(text) => log_text = Some(text),
        _ => panic!("second turn must be logged"),
    }
    state = next_state(state, "1\n");
    assert_eq!(state, SessionState::Terminated);

    let final_records: Vec<serde_json::Value> =
        serde_json::from_str(log_text.as_deref().unwrap()).unwrap();
    assert_eq!(final_records, vec![r1, r2]);
}
