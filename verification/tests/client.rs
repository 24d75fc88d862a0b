use gpt_client::call::{Action, CallState, Event, DIAGNOSTIC_LANGUAGE};
use gpt_client::client::{
    GPTClient, Settings, MAX_TOKENS, OPENAI_API_URL, OPENAI_MODEL, TEMPERATURE_HUNDREDTHS,
};
use gpt_client::error::ClientError;
use gpt_client::extract::ExtractionFault;
use gpt_client::request::{Prompt, SYSTEM_INSTRUCTION};
use gpt_client::temperature::Temperature;
use gpt_client::transport::{
    json_headers, Header, HttpPost, AUTHORIZATION, CONTENT_TYPE, JSON_CONTENT_TYPE,
    TIMEOUT_SECONDS,
};

fn submit(prompt: &str) -> Event {
    Event::Submit { prompt: prompt.to_string() }
}

fn delivered(body: &str) -> Event {
    Event::Delivered { body: body.to_string() }
}

fn undelivered(reason: &str) -> Event {
    Event::Undelivered { reason: reason.to_string() }
}

fn small_client(limit: usize) -> GPTClient<'static> {
    GPTClient::with_settings(
        "key",
        Settings {
            url: "http://localhost:8080/v1/chat",
            model: "test-model",
            limit,
            temperature: Temperature::from_hundredths(70).unwrap(),
        },
    )
}

/// Runs a whole call against a transport that answers with `reply`, and
/// gives back every action that the call asked for.
fn run(client: &GPTClient, prompt: &str, reply: Event) -> (CallState, Vec<Action>) {
    let mut seen = Vec::new();
    let (mut state, mut action) = client.advance(CallState::Idle, submit(prompt));
    seen.push(action.clone());
    if let Action::Post { .. } = action {
        (state, action) = client.advance(state, reply);
        seen.push(action);
    }
    (state, seen)
}

#[test]
fn defaults_are_the_published_ones() {
    assert_eq!(OPENAI_API_URL, "https://api.openai.com/v1/chat/completions");
    assert_eq!(OPENAI_MODEL, "gpt-3.5-turbo");
    assert_eq!(MAX_TOKENS, 4096);
    assert_eq!(TEMPERATURE_HUNDREDTHS, 20);
    assert_eq!(TIMEOUT_SECONDS, 120);
    assert_eq!(AUTHORIZATION, "Authorization");
    assert_eq!(CONTENT_TYPE, "Content-Type");
    assert_eq!(JSON_CONTENT_TYPE, "application/json");
    assert_eq!(DIAGNOSTIC_LANGUAGE, "json");
}

#[test]
fn default_settings_are_the_published_ones() {
    let settings = Settings::default();
    assert_eq!(settings.url, "https://api.openai.com/v1/chat/completions");
    assert_eq!(settings.model, "gpt-3.5-turbo");
    assert_eq!(settings.limit, 4096);
    assert_eq!(settings.temperature, Temperature::from_hundredths(20).unwrap());
}

#[test]
fn client_with_default_settings_is_the_plain_client() {
    let prompt = "reverse a string";
    assert_eq!(
        GPTClient::with_settings("k", Settings::default()).step(CallState::Idle, submit(prompt)),
        GPTClient::new("k").step(CallState::Idle, submit(prompt))
    );
}

#[test]
fn accepted_prompt_is_posted_with_key_and_envelope() {
    let client = GPTClient::new("sk-test");
    let (state, action) = client.step(CallState::Idle, submit("write a hello world function"));
    assert_eq!(state, CallState::Validated);
    let expected_body = Prompt::new(
        "write a hello world function",
        "gpt-3.5-turbo",
        Temperature::from_hundredths(20).unwrap(),
    )
    .to_json();
    assert_eq!(
        action,
        Action::Post {
            request: HttpPost {
                url: "https://api.openai.com/v1/chat/completions".to_string(),
                headers: vec![
                    Header {
                        name: "Authorization".to_string(),
                        value: "Bearer sk-test".to_string(),
                    },
                    Header {
                        name: "Content-Type".to_string(),
                        value: "application/json".to_string(),
                    },
                ],
                body: expected_body,
                timeout: 120,
            }
        }
    );
}

#[test]
fn posted_body_is_the_two_turn_envelope() {
    let client = GPTClient::new("sk-test");
    let (_, action) = client.advance(CallState::Idle, submit("sort a list"));
    let request = match action {
        Action::Post { request } => request,
        other => panic!("no request: {:?}", other),
    };
    let read: serde_json::Value = serde_json::from_str(&request.body).unwrap();
    assert_eq!(read["model"].as_str(), Some("gpt-3.5-turbo"));
    assert_eq!(read["messages"].as_array().unwrap().len(), 2);
    assert_eq!(read["messages"][0]["role"].as_str(), Some("system"));
    assert_eq!(read["messages"][0]["content"].as_str(), Some(SYSTEM_INSTRUCTION));
    assert_eq!(read["messages"][1]["role"].as_str(), Some("user"));
    assert_eq!(read["messages"][1]["content"].as_str(), Some("sort a list"));
    assert_eq!(read["temperature"].as_f64(), Some(0.2));
}

#[test]
fn settings_reach_the_request() {
    let client = small_client(100);
    let (state, action) = client.advance(CallState::Idle, submit("x"));
    assert_eq!(state, CallState::Validated);
    let request = match action {
        Action::Post { request } => request,
        other => panic!("no request: {:?}", other),
    };
    assert_eq!(request.url, "http://localhost:8080/v1/chat");
    assert_eq!(request.headers, json_headers("key"));
    assert_eq!(request.timeout, 120);
    let read: serde_json::Value = serde_json::from_str(&request.body).unwrap();
    assert_eq!(read["model"].as_str(), Some("test-model"));
    assert_eq!(read["temperature"].as_f64(), Some(0.7));
}

#[test]
fn headers_carry_the_key_as_bearer_token() {
    let headers = json_headers("sk-abc");
    assert_eq!(headers.len(), 2);
    assert_eq!(headers[0].name, "Authorization");
    assert_eq!(headers[0].value, "Bearer sk-abc");
    assert_eq!(headers[1].name, "Content-Type");
    assert_eq!(headers[1].value, "application/json");
    assert_eq!(json_headers("")[0].value, "Bearer ");
}

#[test]
fn prompt_one_short_of_the_limit_is_accepted() {
    let client = GPTClient::new("k");
    let prompt = "a".repeat(4095);
    let (state, action) = client.advance(CallState::Idle, submit(&prompt));
    assert_eq!(state, CallState::Validated);
    assert!(matches!(action, Action::Post { .. }));
}

#[test]
fn prompt_at_the_limit_is_rejected() {
    let client = GPTClient::new("k");
    let prompt = "a".repeat(4096);
    let (state, action) = client.advance(CallState::Idle, submit(&prompt));
    assert_eq!(state, CallState::Rejected);
    assert_eq!(action, Action::Fail { error: ClientError::Validation { limit: 4096 } });
}

#[test]
fn prompt_over_the_limit_is_rejected_and_nothing_is_sent() {
    let client = GPTClient::new("k");
    let prompt = "a".repeat(10_000);
    let (state, actions) = run(&client, &prompt, delivered("{}"));
    assert_eq!(state, CallState::Rejected);
    assert_eq!(actions, vec![Action::Fail { error: ClientError::Validation { limit: 4096 } }]);
}

#[test]
fn rejection_names_the_limit() {
    let client = small_client(3);
    let (state, action) = client.step(CallState::Idle, submit("abc"));
    assert_eq!(state, CallState::Rejected);
    match action {
        Action::Fail { error } => {
            assert_eq!(error, ClientError::Validation { limit: 3 });
            assert_eq!(error.message(), "Prompt cannot exceed length of 3 tokens");
        }
        other => panic!("no failure: {:?}", other),
    }
}

#[test]
fn limit_of_zero_rejects_the_empty_prompt() {
    let client = small_client(0);
    let (state, action) = client.step(CallState::Idle, submit(""));
    assert_eq!(state, CallState::Rejected);
    assert_eq!(action, Action::Fail { error: ClientError::Validation { limit: 0 } });
}

#[test]
fn empty_prompt_is_accepted_under_a_limit() {
    let client = small_client(1);
    let (state, action) = client.step(CallState::Idle, submit(""));
    assert_eq!(state, CallState::Validated);
    assert!(matches!(action, Action::Post { .. }));
}

#[test]
fn length_is_counted_in_characters() {
    let client = small_client(4);
    let three_characters = "\u{e9}\u{4e16}\u{1F600}";
    assert_eq!(three_characters.len(), 9);
    let (state, _) = client.step(CallState::Idle, submit(three_characters));
    assert_eq!(state, CallState::Validated);
    let four_characters = "\u{e9}\u{4e16}\u{1F600}!";
    let (state, action) = client.step(CallState::Idle, submit(four_characters));
    assert_eq!(state, CallState::Rejected);
    assert_eq!(action, Action::Fail { error: ClientError::Validation { limit: 4 } });
}

#[test]
fn delivered_answer_is_returned() {
    let client = GPTClient::new("k");
    let body = r#"{"choices":[{"message":{"content":"fn main(){}"}}]}"#;
    let (state, actions) = run(&client, "write main", delivered(body));
    assert_eq!(state, CallState::Done);
    assert_eq!(actions.len(), 2);
    assert!(matches!(actions[0], Action::Post { .. }));
    assert_eq!(actions[1], Action::Return { answer: "fn main(){}".to_string() });
}

#[test]
fn delivered_answer_is_returned_untouched() {
    let client = GPTClient::new("k");
    let body = r#"{"choices":[{"message":{"content":"\n```python\nprint(\"x\")\n```  "}}]}"#;
    let (state, action) = client.advance(CallState::Validated, delivered(body));
    assert_eq!(state, CallState::Done);
    assert_eq!(action, Action::Return { answer: "\n```python\nprint(\"x\")\n```  ".to_string() });
}

#[test]
fn error_reply_fails_and_is_handed_out_raw() {
    let client = GPTClient::new("k");
    let body = r#"{"error":{"message":"rate limited"}}"#;
    let (state, actions) = run(&client, "write main", delivered(body));
    assert_eq!(state, CallState::ExtractionFailed);
    assert_eq!(actions.len(), 2);
    assert_eq!(
        actions[1],
        Action::Diagnose {
            raw_body: r#"{"error":{"message":"rate limited"}}"#.to_string(),
            language: "json".to_string(),
            error: ClientError::Extraction { fault: ExtractionFault::MissingChoices },
        }
    );
}

#[test]
fn invalid_json_fails_and_is_handed_out_raw() {
    let client = GPTClient::new("k");
    let (state, action) = client.advance(CallState::Validated, delivered("not json at all {"));
    assert_eq!(state, CallState::ExtractionFailed);
    assert_eq!(
        action,
        Action::Diagnose {
            raw_body: "not json at all {".to_string(),
            language: "json".to_string(),
            error: ClientError::Extraction { fault: ExtractionFault::InvalidJson },
        }
    );
}

#[test]
fn empty_choices_fail_and_are_handed_out_raw() {
    let client = GPTClient::new("k");
    let (state, action) = client.advance(CallState::Validated, delivered(r#"{"choices":[]}"#));
    assert_eq!(state, CallState::ExtractionFailed);
    assert_eq!(
        action,
        Action::Diagnose {
            raw_body: r#"{"choices":[]}"#.to_string(),
            language: "json".to_string(),
            error: ClientError::Extraction { fault: ExtractionFault::NoCandidate },
        }
    );
}

#[test]
fn numeric_content_fails_and_is_handed_out_raw() {
    let client = GPTClient::new("k");
    let body = r#"{"choices":[{"message":{"content":7}}]}"#;
    let (state, action) = client.advance(CallState::Validated, delivered(body));
    assert_eq!(state, CallState::ExtractionFailed);
    assert_eq!(
        action,
        Action::Diagnose {
            raw_body: body.to_string(),
            language: "json".to_string(),
            error: ClientError::Extraction { fault: ExtractionFault::ContentNotText },
        }
    );
}

#[test]
fn transport_failure_is_passed_on_unchanged() {
    let client = GPTClient::new("k");
    let (state, actions) = run(&client, "write main", undelivered("connection timed out"));
    assert_eq!(state, CallState::TransportFailed);
    assert_eq!(actions.len(), 2);
    assert_eq!(
        actions[1],
        Action::Fail {
            error: ClientError::Transport { reason: "connection timed out".to_string() }
        }
    );
}

#[test]
fn transport_failure_yields_no_answer_later() {
    let client = GPTClient::new("k");
    let (state, _) = client.advance(CallState::Validated, undelivered("refused"));
    let body = r#"{"choices":[{"message":{"content":"late"}}]}"#;
    let (state, action) = client.advance(state, delivered(body));
    assert_eq!(state, CallState::TransportFailed);
    assert_eq!(action, Action::Halt);
    let (state, action) = client.advance(state, Event::Resume);
    assert_eq!(state, CallState::TransportFailed);
    assert_eq!(action, Action::Halt);
}

#[test]
fn single_steps_pass_through_sent_and_parsed() {
    let client = GPTClient::new("k");
    let body = r#"{"choices":[{"message":{"content":"x = 1"}}]}"#;
    let (state, action) = client.step(CallState::Validated, delivered(body));
    assert_eq!(state, CallState::Sent { body: body.to_string() });
    assert_eq!(action, Action::Continue);
    let (state, action) = client.step(state, Event::Resume);
    assert_eq!(state, CallState::Parsed { answer: "x = 1".to_string() });
    assert_eq!(action, Action::Continue);
    let (state, action) = client.step(state, Event::Resume);
    assert_eq!(state, CallState::Done);
    assert_eq!(action, Action::Return { answer: "x = 1".to_string() });
}

#[test]
fn single_step_from_sent_fails_on_a_bad_body() {
    let client = GPTClient::new("k");
    let (state, action) = client.step(CallState::Sent { body: "[]".to_string() }, Event::Resume);
    assert_eq!(state, CallState::ExtractionFailed);
    assert_eq!(
        action,
        Action::Diagnose {
            raw_body: "[]".to_string(),
            language: "json".to_string(),
            error: ClientError::Extraction { fault: ExtractionFault::MissingChoices },
        }
    );
}

#[test]
fn ended_calls_ask_for_nothing() {
    let client = GPTClient::new("k");
    for state in [
        CallState::Done,
        CallState::Rejected,
        CallState::TransportFailed,
        CallState::ExtractionFailed,
    ] {
        for event in [
            submit("again"),
            delivered(r#"{"choices":[{"message":{"content":"x"}}]}"#),
            undelivered("late"),
            Event::Resume,
        ] {
            assert_eq!(client.step(state.clone(), event.clone()), (state.clone(), Action::Halt));
            assert_eq!(client.advance(state.clone(), event), (state.clone(), Action::Halt));
        }
    }
}

#[test]
fn events_out_of_turn_change_nothing() {
    let client = GPTClient::new("k");
    assert_eq!(
        client.step(CallState::Idle, delivered("{}")),
        (CallState::Idle, Action::Halt)
    );
    assert_eq!(
        client.step(CallState::Idle, undelivered("x")),
        (CallState::Idle, Action::Halt)
    );
    assert_eq!(client.step(CallState::Idle, Event::Resume), (CallState::Idle, Action::Halt));
    assert_eq!(
        client.step(CallState::Validated, submit("second prompt")),
        (CallState::Validated, Action::Halt)
    );
    assert_eq!(
        client.step(CallState::Validated, Event::Resume),
        (CallState::Validated, Action::Halt)
    );
    let sent = CallState::Sent { body: "{}".to_string() };
    assert_eq!(client.step(sent.clone(), submit("x")), (sent.clone(), Action::Halt));
    assert_eq!(client.step(sent.clone(), delivered("{}")), (sent, Action::Halt));
    let read = CallState::Parsed { answer: "x".to_string() };
    assert_eq!(client.step(read.clone(), undelivered("x")), (read, Action::Halt));
}

#[test]
fn a_second_prompt_is_not_sent_by_the_same_call() {
    let client = GPTClient::new("k");
    let (state, first) = client.advance(CallState::Idle, submit("one"));
    assert!(matches!(first, Action::Post { .. }));
    let (state, second) = client.advance(state, submit("two"));
    assert_eq!(state, CallState::Validated);
    assert_eq!(second, Action::Halt);
}

#[test]
fn advance_never_asks_to_continue() {
    let client = GPTClient::new("k");
    let bodies = [
        r#"{"choices":[{"message":{"content":"x"}}]}"#,
        r#"{"choices":[]}"#,
        "nonsense",
    ];
    for body in bodies {
        let (_, action) = client.advance(CallState::Validated, delivered(body));
        assert_ne!(action, Action::Continue);
        let (_, action) =
            client.advance(CallState::Sent { body: body.to_string() }, Event::Resume);
        assert_ne!(action, Action::Continue);
    }
}

#[test]
fn failures_are_told_in_sentences() {
    assert_eq!(
        ClientError::Validation { limit: 4096 }.message(),
        "Prompt cannot exceed length of 4096 tokens"
    );
    assert_eq!(
        ClientError::Transport { reason: "dns lookup failed".to_string() }.message(),
        "dns lookup failed"
    );
    assert_eq!(
        ClientError::Extraction { fault: ExtractionFault::NoCandidate }.message(),
        "Response has no first choice"
    );
    assert_eq!(
        ClientError::Extraction { fault: ExtractionFault::InvalidJson }.message(),
        "Response is not valid JSON"
    );
}
