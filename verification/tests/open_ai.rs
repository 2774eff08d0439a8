use rust_llm_utils::open_ai_api::exchange::{CallOutcome, OpenAiError};
use rust_llm_utils::open_ai_api::payload::{escape_line_breaks, frame_payload, write_payload};
use rust_llm_utils::open_ai_api::{Choice, Message, OpenAiModel};
use rust_llm_utils::{OpenAiClient, OpenAiCompletionsResponseBody, OpenAiSimplifiedResponse};
use serde_json::Value;

fn choice(index: u64, content: &str) -> Choice {
    Choice {
        index,
        message: Message { role: "assistant".to_string(), content: content.to_string() },
    }
}

fn envelope(choices: Vec<Choice>) -> OpenAiCompletionsResponseBody {
    OpenAiCompletionsResponseBody {
        id: "x".to_string(),
        object: "chat.completion".to_string(),
        created: 1,
        model: "gpt-3.5-turbo-16k".to_string(),
        choices,
    }
}

fn content_of(payload: &str) -> String {
    let value: Value = serde_json::from_str(payload).unwrap();
    value["messages"][0]["content"].as_str().unwrap().to_string()
}

#[test]
fn payload_escapes_line_breaks_before_it_is_written() {
    let client = OpenAiClient::new(None, Some("token"), None);
    let payload = client.generate_prompt("line1\nline2");
    assert_eq!(
        payload,
        r#"{"model":"gpt-3.5-turbo-16k","messages":[{"role":"user","content":"line1\\nline2"}],"temperature":0.01}"#
    );
    let value: Value = serde_json::from_str(&payload).unwrap();
    assert_eq!(value["messages"][0]["content"], Value::String("line1\\nline2".to_string()));
    assert_eq!(value["temperature"].as_f64(), Some(0.01));
    assert_eq!(value["model"], Value::String("gpt-3.5-turbo-16k".to_string()));
}

#[test]
fn payload_holds_one_user_message_and_nothing_more() {
    let client = OpenAiClient::new(Some(OpenAiModel::Gpt35_16k), Some("token"), None);
    let value: Value = serde_json::from_str(&client.generate_prompt("hello")).unwrap();
    let object = value.as_object().unwrap();
    assert_eq!(object.len(), 3);
    let messages = value["messages"].as_array().unwrap();
    assert_eq!(messages.len(), 1);
    assert_eq!(messages[0].as_object().unwrap().len(), 2);
    assert_eq!(messages[0]["role"], Value::String("user".to_string()));
    assert_eq!(messages[0]["content"], Value::String("hello".to_string()));
}

#[test]
fn payload_is_valid_json_for_quotes_and_backslashes() {
    let prompt = "say \"hi\"\tand \\ then\r\nstop \u{1}\u{2600}";
    let payload = write_payload("gpt-3.5-turbo-16k", prompt);
    assert_eq!(content_of(&payload), "say \"hi\"\tand \\ then\r\\nstop \u{1}\u{2600}");
    assert!(payload.contains(r#""content":"say \"hi\"\tand \\ then\r\\nstop \u0001"#));
}

#[test]
fn payload_names_the_model_it_was_given() {
    let payload = write_payload("some \"model\"", "q");
    let value: Value = serde_json::from_str(&payload).unwrap();
    assert_eq!(value["model"], Value::String("some \"model\"".to_string()));
}

#[test]
fn frame_sets_the_three_literals_in_their_places() {
    assert_eq!(
        frame_payload("\"m\"", "\"r\"", "\"c\""),
        r#"{"model":"m","messages":[{"role":"r","content":"c"}],"temperature":0.01}"#
    );
    assert_eq!(
        frame_payload("", "", ""),
        r#"{"model":,"messages":[{"role":,"content":}],"temperature":0.01}"#
    );
}

#[test]
fn every_line_break_is_replaced_by_backslash_n() {
    assert_eq!(escape_line_breaks(""), "");
    assert_eq!(escape_line_breaks("ab"), "ab");
    assert_eq!(escape_line_breaks("\n"), "\\n");
    assert_eq!(escape_line_breaks("\n\n"), "\\n\\n");
    assert_eq!(escape_line_breaks("a\nb\n"), "a\\nb\\n");
    assert_eq!(escape_line_breaks("a\\nb"), "a\\nb");
    assert_eq!(escape_line_breaks("a\r\nb"), "a\r\\nb");
    assert_eq!(escape_line_breaks("\u{2600}\n\u{fe0f}"), "\u{2600}\\n\u{fe0f}");
}

#[test]
fn escaped_text_has_no_line_break_and_one_more_character_for_each() {
    let texts = ["", "plain", "one\ntwo", "\n\n\n", "tail\n", "\u{11f}\n\u{178}\n"];
    for text in texts {
        let escaped = escape_line_breaks(text);
        assert!(!escaped.contains('\n'));
        let line_breaks = text.chars().filter(|c| *c == '\n').count();
        assert_eq!(escaped.chars().count(), text.chars().count() + line_breaks);
        assert_eq!(escaped, text.replace("\n", "\\n"));
    }
}

#[test]
fn escaping_goes_piece_by_piece() {
    let first = "a\nb";
    let second = "\nc\n";
    assert_eq!(
        escape_line_breaks(&format!("{first}{second}")),
        format!("{}{}", escape_line_breaks(first), escape_line_breaks(second))
    );
}

#[test]
fn first_choice_becomes_the_answer() {
    let body = envelope(vec![choice(0, "fixed code here")]);
    let simplified = OpenAiSimplifiedResponse::try_from(body).unwrap();
    assert_eq!(simplified.answer, Some("fixed code here".to_string()));
    assert_eq!(simplified.follow_up_query, None);
}

#[test]
fn later_choices_are_not_consumed() {
    let body = envelope(vec![choice(0, "first"), choice(1, "second"), choice(2, "third")]);
    let simplified: OpenAiSimplifiedResponse = body.try_into().unwrap();
    assert_eq!(simplified.answer, Some("first".to_string()));
    assert_eq!(simplified.follow_up_query, None);
}

#[test]
fn an_empty_first_choice_is_still_an_answer() {
    let simplified = OpenAiSimplifiedResponse::try_from(envelope(vec![choice(7, "")])).unwrap();
    assert_eq!(simplified.answer, Some(String::new()));
    assert_eq!(simplified.follow_up_query, None);
}

#[test]
fn no_choice_is_an_error() {
    let result = OpenAiSimplifiedResponse::try_from(envelope(vec![]));
    assert_eq!(result.err(), Some("failed to get the choice from response".to_string()));
}

#[test]
fn client_takes_the_served_model_by_default() {
    let client = OpenAiClient::new(None, Some("token"), None);
    assert!(matches!(client.model(), OpenAiModel::Gpt35_16k));
    let client = OpenAiClient::new(Some(OpenAiModel::Gpt40_32k), Some("token"), None);
    assert!(matches!(client.model(), OpenAiModel::Gpt40_32k));
    assert!(!client.model().is_available());
}

#[test]
fn client_prefers_the_token_it_was_given() {
    let client = OpenAiClient::new(None, Some("given"), Some("configured"));
    assert_eq!(client.token(), "given");
    let client = OpenAiClient::new(None, None, Some("configured"));
    assert_eq!(client.token(), "configured");
    let client = OpenAiClient::new(None, Some("given"), None);
    assert_eq!(client.token(), "given");
}

#[test]
fn served_model_has_its_wire_name() {
    assert!(OpenAiModel::Gpt35_16k.is_available());
    assert_eq!(OpenAiModel::Gpt35_16k.value(), "gpt-3.5-turbo-16k");
    assert!(!OpenAiModel::Gpt40_32k.is_available());
}

#[test]
fn call_goes_to_the_completions_endpoint_with_a_bearer_token() {
    let client = OpenAiClient::new(None, None, Some("abc 123"));
    assert_eq!(client.authorization(), "Bearer abc 123");
    let call = client.prepare_call(client.generate_prompt("a\nb"));
    assert_eq!(call.uri, "https://api.openai.com/v1/chat/completions");
    assert_eq!(call.method, "POST");
    assert_eq!(call.content_type, "application/json");
    assert_eq!(call.authorization, "Bearer abc 123");
    assert_eq!(call.body, client.generate_prompt("a\nb"));
    assert_eq!(content_of(&call.body), "a\\nb");
}

#[test]
fn read_reply_with_a_choice_gives_the_answer() {
    for status in [200, 201, 299] {
        let outcome = CallOutcome::Replied {
            status,
            envelope: Ok(envelope(vec![choice(0, "fixed code here"), choice(1, "other")])),
        };
        let simplified = OpenAiClient::conclude(outcome).unwrap();
        assert_eq!(simplified.answer, Some("fixed code here".to_string()));
        assert_eq!(simplified.follow_up_query, None);
    }
}

#[test]
fn failed_transport_is_a_transport_error() {
    let outcome = CallOutcome::TransportFailed("dns error".to_string());
    match OpenAiClient::conclude(outcome) {
        Err(OpenAiError::Transport(reason)) => assert_eq!(reason, "dns error"),
        other => panic!("unexpected {other:?}"),
    }
}

#[test]
fn status_outside_the_two_hundreds_is_a_status_error() {
    for status in [0, 100, 199, 300, 401, 429, 500, u16::MAX] {
        let with_body =
            CallOutcome::Replied { status, envelope: Ok(envelope(vec![choice(0, "ignored")])) };
        assert!(matches!(
            OpenAiClient::conclude(with_body),
            Err(OpenAiError::Status(s)) if s == status
        ));
        let without_body =
            CallOutcome::Replied { status, envelope: Err("expected value".to_string()) };
        assert!(matches!(
            OpenAiClient::conclude(without_body),
            Err(OpenAiError::Status(s)) if s == status
        ));
    }
}

#[test]
fn unreadable_body_is_a_protocol_error() {
    let outcome =
        CallOutcome::Replied { status: 200, envelope: Err("missing field `id`".to_string()) };
    match OpenAiClient::conclude(outcome) {
        Err(OpenAiError::Protocol(reason)) => assert_eq!(reason, "missing field `id`"),
        other => panic!("unexpected {other:?}"),
    }
}

#[test]
fn read_reply_without_a_choice_is_an_empty_result() {
    let outcome = CallOutcome::Replied { status: 200, envelope: Ok(envelope(vec![])) };
    assert!(matches!(OpenAiClient::conclude(outcome), Err(OpenAiError::EmptyResult)));
}
