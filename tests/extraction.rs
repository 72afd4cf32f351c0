use workspace_chat::extract::{chat_of_entry, chats_from_blob, chats_from_rows, chats_from_value, ChatRecord};
use workspace_chat::json::Json;
use workspace_chat::reader::workspace_json;

const TWO_CHATS: &str = r#"[{"requests":[{"message":{"text":"Q1"},"response":[{"value":"A1"}]},{"message":{"text":"Q2"},"response":[{"value":"A2"}]}]}]"#;

fn pairs(v: &[ChatRecord]) -> Vec<(String, String)> {
    v.iter().map(|c| (c.question.clone(), c.answer.clone())).collect()
}

fn obj(members: Vec<(&str, Json)>) -> Json {
    Json::Object(members.into_iter().map(|(k, v)| (k.to_string(), v)).collect())
}

fn text(s: &str) -> Json {
    Json::Str(s.to_string())
}

fn entry(q: &str, a: &str) -> Json {
    obj(vec![
        ("message", obj(vec![("text", text(q))])),
        ("response", Json::Array(vec![obj(vec![("value", text(a))])])),
    ])
}

#[test]
fn order_is_preserved() {
    let out = workspace_json(&vec![Some(TWO_CHATS.to_string())]);
    match out {
        Ok(s) => assert_eq!(s, r#"[{"question":"Q1","answer":"A1"},{"question":"Q2","answer":"A2"}]"#),
        Err(e) => panic!("unexpected error: {}", e.message()),
    }
}

#[test]
fn no_rows_give_empty_array() {
    match workspace_json(&vec![]) {
        Ok(s) => assert_eq!(s, "[]"),
        Err(e) => panic!("unexpected error: {}", e.message()),
    }
}

#[test]
fn rows_without_records_give_empty_array() {
    match workspace_json(&vec![Some("[]".to_string()), None]) {
        Ok(s) => assert_eq!(s, "[]"),
        Err(e) => panic!("unexpected error: {}", e.message()),
    }
}

#[test]
fn invalid_json_row_is_skipped() {
    let rows = vec![
        Some("{not json".to_string()),
        Some(TWO_CHATS.to_string()),
        Some("".to_string()),
    ];
    let out = chats_from_rows(&rows);
    assert_eq!(
        pairs(&out),
        vec![("Q1".to_string(), "A1".to_string()), ("Q2".to_string(), "A2".to_string())]
    );
}

#[test]
fn unreadable_row_is_skipped() {
    let rows = vec![None, Some(TWO_CHATS.to_string()), None];
    assert_eq!(chats_from_rows(&rows).len(), 2);
}

#[test]
fn rows_keep_their_order() {
    let later = r#"[{"requests":[{"message":{"text":"Q3"},"response":[{"value":"A3"}]}]}]"#;
    let rows = vec![Some(later.to_string()), Some(TWO_CHATS.to_string())];
    let got: Vec<String> = chats_from_rows(&rows).into_iter().map(|c| c.question).collect();
    assert_eq!(got, vec!["Q3", "Q1", "Q2"]);
}

#[test]
fn incomplete_entries_are_skipped() {
    let only_question = obj(vec![("message", obj(vec![("text", text("lonely"))]))]);
    let only_answer = obj(vec![("response", Json::Array(vec![obj(vec![("value", text("orphan"))])]))]);
    let blob = Json::Array(vec![obj(vec![(
        "requests",
        Json::Array(vec![only_question, entry("Q1", "A1"), only_answer, entry("Q2", "A2")]),
    )])]);
    assert_eq!(
        pairs(&chats_from_blob(&blob)),
        vec![("Q1".to_string(), "A1".to_string()), ("Q2".to_string(), "A2".to_string())]
    );
}

#[test]
fn wrong_types_yield_nothing() {
    let number_question = obj(vec![
        ("message", obj(vec![("text", Json::Number("5".to_string()))])),
        ("response", Json::Array(vec![obj(vec![("value", text("a"))])])),
    ]);
    assert!(chat_of_entry(&number_question).is_none());
    let empty_response = obj(vec![
        ("message", obj(vec![("text", text("q"))])),
        ("response", Json::Array(vec![])),
    ]);
    assert!(chat_of_entry(&empty_response).is_none());
    let response_object = obj(vec![
        ("message", obj(vec![("text", text("q"))])),
        ("response", obj(vec![("value", text("a"))])),
    ]);
    assert!(chat_of_entry(&response_object).is_none());
    assert!(chat_of_entry(&text("q")).is_none());
}

#[test]
fn answer_comes_from_first_response() {
    let two_responses = obj(vec![
        ("message", obj(vec![("text", text("q"))])),
        (
            "response",
            Json::Array(vec![obj(vec![("value", text("first"))]), obj(vec![("value", text("second"))])]),
        ),
    ]);
    let c = chat_of_entry(&two_responses).unwrap();
    assert_eq!(c.question, "q");
    assert_eq!(c.answer, "first");
}

#[test]
fn unexpected_shapes_yield_nothing() {
    assert!(chats_from_value(r#"{"requests":[]}"#).is_empty());
    assert!(chats_from_value("[]").is_empty());
    assert!(chats_from_value(r#"[{"requests":{}}]"#).is_empty());
    assert!(chats_from_value(r#"[{"other":[]}]"#).is_empty());
    assert!(chats_from_value(r#"[5]"#).is_empty());
    assert!(chats_from_value("null").is_empty());
}

#[test]
fn only_first_session_is_read() {
    let two_sessions = r#"[{"requests":[{"message":{"text":"Q1"},"response":[{"value":"A1"}]}]},{"requests":[{"message":{"text":"Q9"},"response":[{"value":"A9"}]}]}]"#;
    assert_eq!(pairs(&chats_from_value(two_sessions)), vec![("Q1".to_string(), "A1".to_string())]);
}

#[test]
fn extra_fields_are_ignored() {
    let extra = r#"[{"id":7,"requests":[{"x":null,"message":{"text":"Q","parts":[]},"response":[{"kind":"md","value":"A"}]}]}]"#;
    assert_eq!(pairs(&chats_from_value(extra)), vec![("Q".to_string(), "A".to_string())]);
}

#[test]
fn serialized_strings_are_escaped() {
    let v = r#"[{"requests":[{"message":{"text":"say \"hi\"\n"},"response":[{"value":"a\\b é"}]}]}]"#;
    match workspace_json(&vec![Some(v.to_string())]) {
        Ok(s) => assert_eq!(s, r#"[{"question":"say \"hi\"\n","answer":"a\\b é"}]"#),
        Err(e) => panic!("unexpected error: {}", e.message()),
    }
}

#[test]
fn same_rows_give_same_text() {
    let rows = vec![Some(TWO_CHATS.to_string()), Some("oops".to_string())];
    let a = workspace_json(&rows).ok().unwrap();
    let b = workspace_json(&rows).ok().unwrap();
    assert_eq!(a, b);
}

#[test]
fn control_characters_are_escaped() {
    let blob = Json::Array(vec![obj(vec![(
        "requests",
        Json::Array(vec![entry("\u{1}\u{8}\t\u{c}\r\u{1f}", "/\u{7f}\u{20}")]),
    )])]);
    let chats = chats_from_blob(&blob);
    let rows_text = format!(
        "[{{\"requests\":[{{\"message\":{{\"text\":{}}},\"response\":[{{\"value\":{}}}]}}]}}]",
        r#""\u0001\b\t\f\r\u001F""#,
        r#""/\u007f ""#
    );
    assert_eq!(pairs(&chats_from_value(&rows_text)), pairs(&chats));
    match workspace_json(&vec![Some(rows_text)]) {
        Ok(s) => assert_eq!(
            s,
            "[{\"question\":\"\\u0001\\b\\t\\f\\r\\u001f\",\"answer\":\"/\u{7f} \"}]"
        ),
        Err(e) => panic!("unexpected error: {}", e.message()),
    }
}

#[test]
fn dropping_unparsable_row_keeps_text() {
    let with_bad = vec![Some(TWO_CHATS.to_string()), Some("[{".to_string()), Some("[]".to_string())];
    let without = vec![Some(TWO_CHATS.to_string()), Some("[]".to_string())];
    let a = workspace_json(&with_bad).ok().unwrap();
    let b = workspace_json(&without).ok().unwrap();
    assert_eq!(a, b);
}
