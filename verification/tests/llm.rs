//! The conversation with a language model.

use voice_agent::ieee754::F32Bits;
use voice_agent::llm::answer::{AnswerPoll, AnswerRead, AnswerStream, ParsedData};
use voice_agent::llm::client::{ChatResponse, ResponseChoice, ResponseMessage, StreamStart};
use voice_agent::llm::endpoints;
use voice_agent::llm::history::DEFAULT_SYSTEM_PROMPT;
use voice_agent::llm::retry::{reads_body, Reply, RetryState, RetryStep};
use voice_agent::llm::stream::{
    chunks_of, read_event, CollectStep, ResponseCollector, SseData, SsePoll, SseStream,
    StreamChoice, StreamChunk, StreamDelta,
};
use voice_agent::llm::{
    CancellationToken, LlmChunk, LlmClient, LlmConfig, LlmHistory, Message, Role,
};

fn number(x: f32) -> F32Bits {
    F32Bits { bits: x.to_bits() }
}

fn choice(content: Option<&str>, finish_reason: Option<&str>) -> StreamChoice {
    StreamChoice {
        delta: StreamDelta { content: content.map(|s| s.to_string()) },
        finish_reason: finish_reason.map(|s| s.to_string()),
    }
}

fn fake_config() -> LlmConfig {
    LlmConfig::new(
        "http://localhost".to_string(),
        "fake_key".to_string(),
        "test".to_string(),
    )
}

#[test]
fn test_message_constructors() {
    let system = Message::system("test system");
    assert_eq!(system.role, Role::System);
    assert_eq!(system.content, "test system");

    let user = Message::user("test user");
    assert_eq!(user.role, Role::User);
    assert_eq!(user.content, "test user");

    let assistant = Message::assistant("test assistant");
    assert_eq!(assistant.role, Role::Assistant);
    assert_eq!(assistant.content, "test assistant");
}

#[test]
fn test_llm_config_builders() {
    let config = LlmConfig::openai("key".to_string(), "gpt-4".to_string())
        .with_system_prompt("prompt")
        .with_temperature(number(0.5))
        .with_max_tokens(100);

    assert_eq!(config.endpoint, endpoints::OPENAI);
    assert_eq!(config.api_key, "key");
    assert_eq!(config.model, "gpt-4");
    assert_eq!(config.system_prompt, Some("prompt".to_string()));
    assert_eq!(config.temperature, Some(number(0.5)));
    assert_eq!(config.max_tokens, Some(100));
}

#[test]
fn test_groq_config() {
    let config = LlmConfig::groq("key".to_string(), "llama-3.3-70b-versatile".to_string());
    assert_eq!(config.endpoint, endpoints::GROQ);
}

#[test]
fn test_cancellation_token() {
    let token = CancellationToken::new();
    assert!(!token.is_cancelled());

    token.cancel();
    assert!(token.is_cancelled());

    token.reset();
    assert!(!token.is_cancelled());
}

#[test]
fn test_cancellation_token_clone() {
    let token = CancellationToken::new();
    let cloned = token.clone();

    token.cancel();
    assert!(cloned.is_cancelled());
}

#[test]
fn test_history_management() {
    let config = LlmConfig::new(
        "http://localhost".to_string(),
        "fake_key".to_string(),
        "test".to_string(),
    )
    .with_system_prompt("System prompt");

    let mut client = LlmClient::new(config);

    // Should have system prompt
    let history = client.history();
    assert_eq!(history.len(), 1);
    assert_eq!(history[0].role, Role::System);
    assert_eq!(history[0].content, "System prompt");

    // Add messages
    client.add_message(Message::user("Hello"));
    client.add_message(Message::assistant("Hi there"));

    let history = client.history();
    assert_eq!(history.len(), 3);

    // Clear history
    client.clear_history();
    let history = client.history();
    assert_eq!(history.len(), 1); // System prompt preserved
    assert_eq!(history[0].role, Role::System);
    assert_eq!(history[0].content, "System prompt");
}

#[test]
fn test_client_cancel_interface() {
    let client = LlmClient::new(fake_config());

    assert!(!client.is_cancelled());
    client.cancel();
    assert!(client.is_cancelled());
    client.reset_cancel();
    assert!(!client.is_cancelled());
}

#[test]
fn test_stream_cancelled_before_start() {
    let mut client = LlmClient::new(fake_config());
    client.cancel();

    assert!(matches!(client.chat_stream("Hello"), StreamStart::Cancelled));
    assert!(matches!(client.chat_stream_with_history("Hello"), StreamStart::Cancelled));
    assert_eq!(client.history().len(), 1);
}

#[test]
fn renewed_token_shares_the_flag() {
    let token = CancellationToken::new();
    token.cancel();
    let renewed = token.renewed();
    assert!(!token.is_cancelled());
    assert!(!renewed.is_cancelled());
    token.clone().cancel();
    assert!(renewed.is_cancelled());
}

#[test]
fn default_token_is_not_cancelled() {
    assert!(!CancellationToken::default().is_cancelled());
}

#[test]
fn config_keeps_what_a_builder_does_not_name() {
    let prompt = "short".to_string();
    let config = LlmConfig::groq("key".to_string(), "model".to_string())
        .with_max_tokens(7)
        .with_system_prompt(&prompt);
    assert_eq!(config.api_key, "key");
    assert_eq!(config.model, "model");
    assert_eq!(config.max_tokens, Some(7));
    assert_eq!(config.temperature, None);
    assert_eq!(config.clone().system_prompt, Some("short".to_string()));
    assert_eq!(config.authorization(), "Bearer key");
}

#[test]
fn fresh_history_holds_the_default_prompt() {
    let history = LlmHistory::new();
    assert_eq!(history.len(), 1);
    assert_eq!(history.get_system_prompt(), DEFAULT_SYSTEM_PROMPT);
    assert_eq!(history[0].content, "You are a helpful assistant. Keep responses brief.");
    assert!(history.get(1).is_none());
}

#[test]
fn history_begins_with_its_prompt() {
    let mut history = LlmHistory::new();
    history.add_message(Message::user("a"));
    history.set_system_prompt("first".to_string());
    history.set_system_prompt("second".to_string());
    history.add_message(Message::assistant("b"));
    let messages = history.get_messages();
    assert_eq!(messages.len(), 3);
    assert_eq!(messages[0].role, Role::System);
    assert_eq!(messages[0].content, "second");
    assert_eq!(messages[1].content, "a");
    assert_eq!(messages[2].content, "b");
    assert_eq!(history.get(2).unwrap().role, Role::Assistant);

    let copy = history.clone();
    history.clear();
    assert_eq!(history.len(), 1);
    assert_eq!(history.get_system_prompt(), DEFAULT_SYSTEM_PROMPT);
    assert_eq!(copy.len(), 3);
}

#[test]
fn client_without_a_prompt_has_the_default_one() {
    let mut client = LlmClient::new(fake_config());
    assert_eq!(client.get_system_prompt(), DEFAULT_SYSTEM_PROMPT);
    client.set_system_prompt("changed".to_string());
    assert_eq!(client.get_system_prompt(), "changed");
    client.clear_history();
    assert_eq!(client.get_system_prompt(), DEFAULT_SYSTEM_PROMPT);
}

#[test]
fn replaced_history_is_read_back() {
    let mut client = LlmClient::new(fake_config());
    let mut history = LlmHistory::new();
    history.set_system_prompt("You are a technical assistant.".to_string());
    history.add_message(Message::user("Previous context"));
    client.set_history(history);
    assert_eq!(client.history().len(), 2);
    assert_eq!(client.history()[1].content, "Previous context");
    assert_eq!(client.get_system_prompt(), "You are a technical assistant.");
}

#[test]
fn chat_asks_and_remembers() {
    let config = fake_config().with_temperature(number(0.25)).with_max_tokens(9);
    let mut client = LlmClient::new(config);
    let request = client.chat("What is new?");
    assert_eq!(request.model, "test");
    assert!(!request.stream);
    assert_eq!(request.temperature, Some(number(0.25)));
    assert_eq!(request.max_completion_tokens, Some(9));
    assert_eq!(request.messages.len(), 2);
    assert_eq!(request.messages[0].role, Role::System);
    assert_eq!(request.messages[1].role, Role::User);
    assert_eq!(request.messages[1].content, "What is new?");

    let response = ChatResponse {
        choices: vec![
            ResponseChoice { message: ResponseMessage { content: "Nothing.".to_string() } },
            ResponseChoice { message: ResponseMessage { content: "Much.".to_string() } },
        ],
    };
    assert_eq!(client.finish_chat(&response), "Nothing.");
    assert_eq!(client.history().len(), 3);
    assert_eq!(client.history()[2].role, Role::Assistant);
    assert_eq!(client.history()[2].content, "Nothing.");

    assert_eq!(client.finish_chat(&ChatResponse { choices: vec![] }), "");
    assert_eq!(client.history()[3].content, "");
}

#[test]
fn stream_starts_with_the_conversation() {
    let mut client = LlmClient::new(fake_config());
    let token = CancellationToken::new();
    match client.chat_stream_with_token("Hi", token.clone()) {
        StreamStart::Request { request, .. } => {
            assert!(request.stream);
            assert_eq!(request.messages.len(), 2);
            assert_eq!(request.messages[1].content, "Hi");
        }
        StreamStart::Cancelled => panic!("not cancelled"),
    }
    client.add_assistant_response("Hello");
    assert_eq!(client.history().len(), 3);
    token.cancel();
    assert!(matches!(
        client.chat_stream_with_history_and_token("Again", token.clone()),
        StreamStart::Cancelled
    ));
    assert_eq!(client.history().len(), 3);
    client.cancel();
    assert!(client.cancellation_token().is_cancelled());
    assert!(matches!(client.start_stream("Now", false, true), StreamStart::Request { .. }));
}

#[test]
fn choices_become_pieces() {
    let chunk = StreamChunk {
        choices: vec![
            choice(Some("a"), None),
            choice(Some(""), None),
            choice(None, None),
            choice(Some("b"), Some("stop")),
            choice(None, Some("stop")),
        ],
    };
    assert_eq!(
        chunks_of(&chunk),
        vec![
            LlmChunk::Delta("a".to_string()),
            LlmChunk::Delta("b".to_string()),
            LlmChunk::Done,
            LlmChunk::Done,
        ]
    );
}

fn described(data: &[SseData]) -> Vec<String> {
    data.iter()
        .map(|d| match d {
            SseData::Done => "done".to_string(),
            SseData::Payload(s) => format!("payload {}", s),
        })
        .collect()
}

#[test]
fn events_carry_data_lines_only() {
    let data = read_event("event: x\ndata: {\"a\":1}\r\n: comment\ndata:none\ndata:  [DONE] \ndata: ");
    assert_eq!(described(&data), vec!["payload {\"a\":1}", "done", "payload "]);
    assert!(read_event("").is_empty());
}

#[test]
fn carriage_return_at_the_very_end_stays() {
    assert_eq!(described(&read_event("data: x\r")), vec!["payload x\r"]);
}

fn drain(sse: &mut SseStream) -> Vec<String> {
    let mut out = Vec::new();
    loop {
        match sse.poll(false) {
            SsePoll::Event(data) => out.extend(described(&data)),
            SsePoll::Pending => return out,
            SsePoll::Cancelled => panic!("not cancelled"),
        }
    }
}

#[test]
fn how_events_arrive_does_not_matter() {
    let text = "data: one\n\n\n\ndata: two\n\ndata: three\n";
    let mut whole = SseStream::new();
    whole.push_text(text);
    let expected = drain(&mut whole);
    assert_eq!(expected, vec!["payload one", "payload two"]);
    for cut in 0..=text.len() {
        let mut sse = SseStream::new();
        sse.push_text(&text[..cut]);
        let mut got = drain(&mut sse);
        sse.push_text(&text[cut..]);
        got.extend(drain(&mut sse));
        assert_eq!(got, expected, "cut at {}", cut);
    }
}

#[test]
fn cancellation_stops_before_the_next_event() {
    let mut sse = SseStream::new();
    assert!(matches!(sse.poll(true), SsePoll::Pending));
    sse.push_text("data: x\n\n");
    assert!(matches!(sse.poll(true), SsePoll::Cancelled));
    assert!(matches!(sse.poll(false), SsePoll::Event(_)));
}

fn steps(list: &[CollectStep]) -> Vec<String> {
    list.iter()
        .map(|s| match s {
            CollectStep::Report(text) => format!("report {}", text),
            CollectStep::Yield(LlmChunk::Delta(text)) => format!("delta {}", text),
            CollectStep::Yield(LlmChunk::Done) => "done".to_string(),
            CollectStep::Yield(LlmChunk::Cancelled) => "cancelled".to_string(),
        })
        .collect()
}

#[test]
fn report_is_what_was_handed_on() {
    let mut collector = ResponseCollector::new();
    let first = collector.collect(vec![
        LlmChunk::Delta("Hel".to_string()),
        LlmChunk::Delta("lo".to_string()),
        LlmChunk::Done,
    ]);
    assert_eq!(steps(&first), vec!["delta Hel", "delta lo", "report Hello", "done"]);
    let second = collector.collect(vec![LlmChunk::Delta("!".to_string()), LlmChunk::Done]);
    assert_eq!(steps(&second), vec!["delta !", "done"]);
}

#[test]
fn answer_is_read_from_bytes() {
    let mut answer = AnswerStream::with_report();
    let bytes = "data: {}\n\ndata: [DONE]\n\n".as_bytes();
    assert!(matches!(answer.on_read(false, Some(&bytes[..])), AnswerRead::Buffered));
    match answer.poll(false) {
        AnswerPoll::Event(data) => assert_eq!(described(&data), vec!["payload {}"]),
        _ => panic!("an event is complete"),
    }
    let parsed = ParsedData::Chunk(StreamChunk { choices: vec![choice(Some("Hi"), None)] });
    assert_eq!(steps(&answer.on_data(&parsed)), vec!["delta Hi"]);
    assert!(steps(&answer.on_data(&ParsedData::Unreadable)).is_empty());
    match answer.poll(false) {
        AnswerPoll::Event(data) => assert_eq!(described(&data), vec!["done"]),
        _ => panic!("an event is complete"),
    }
    assert_eq!(steps(&answer.on_data(&ParsedData::Done)), vec!["report Hi", "done"]);
    assert!(matches!(answer.poll(false), AnswerPoll::Pending));
    assert!(matches!(answer.on_read(false, None), AnswerRead::Ended));
    assert!(matches!(answer.on_read(false, Some(&bytes[..])), AnswerRead::Ended));
    assert!(answer.on_data(&ParsedData::Done).is_empty());
}

fn parsed(data: SseData) -> ParsedData {
    match data {
        SseData::Done => ParsedData::Done,
        SseData::Payload(text) if text == "?" => ParsedData::Unreadable,
        SseData::Payload(text) => {
            ParsedData::Chunk(StreamChunk { choices: vec![choice(Some(&text), None)] })
        }
    }
}

fn handed_on(parts: &[&[u8]]) -> Vec<String> {
    let mut answer = AnswerStream::with_report();
    let mut out = Vec::new();
    for part in parts {
        assert!(matches!(answer.on_read(false, Some(part)), AnswerRead::Buffered));
        while let AnswerPoll::Event(lines) = answer.poll(false) {
            for line in lines {
                out.extend(steps(&answer.on_data(&parsed(line))));
            }
        }
    }
    out
}

#[test]
fn body_may_be_cut_anywhere() {
    let body = b"data: Hel\n\ndata: lo\ndata: ?\n\n\n\ndata: [DONE]\n\ndata: lost";
    let expected = vec!["delta Hel", "delta lo", "report Hello", "done"];
    assert_eq!(handed_on(&[&body[..]]), expected);
    for i in 0..=body.len() {
        for j in i..=body.len() {
            assert_eq!(handed_on(&[&body[..i], &body[i..j], &body[j..]]), expected);
        }
    }
    let bytes: Vec<&[u8]> = body.chunks(1).collect();
    assert_eq!(handed_on(&bytes), expected);

    let text = "data: d\u{e9}j\u{e0}\n\ndata: vu\n\n";
    for (i, _) in text.char_indices() {
        assert_eq!(
            handed_on(&[&text.as_bytes()[..i], &text.as_bytes()[i..]]),
            vec!["delta d\u{e9}j\u{e0}", "delta vu"]
        );
    }
}

#[test]
fn nothing_is_handed_on_after_a_cancellation() {
    let body = b"data: a\n\ndata: b\n\n";
    for at_poll in [false, true] {
        let mut answer = AnswerStream::with_report();
        let mut out = Vec::new();
        answer.on_read(false, Some(&body[..]));
        if let AnswerPoll::Event(lines) = answer.poll(false) {
            for line in lines {
                out.extend(steps(&answer.on_data(&parsed(line))));
            }
        }
        if at_poll {
            match answer.poll(true) {
                AnswerPoll::Cancelled(list) => out.extend(steps(&list)),
                _ => panic!("cancelled"),
            }
        } else {
            match answer.on_read(true, None) {
                AnswerRead::Cancelled(list) => out.extend(steps(&list)),
                _ => panic!("cancelled"),
            }
        }
        assert_eq!(out, vec!["delta a", "report a", "cancelled"]);
        assert!(matches!(answer.poll(false), AnswerPoll::Pending));
        assert!(matches!(answer.poll(true), AnswerPoll::Pending));
        assert!(matches!(answer.on_read(false, Some(&body[..])), AnswerRead::Ended));
        assert!(matches!(answer.on_read(true, Some(&body[..])), AnswerRead::Ended));
        assert!(answer.on_data(&ParsedData::Done).is_empty());
    }
}

#[test]
fn cancelled_answer_reports_what_has_come() {
    let mut answer = AnswerStream::with_report();
    let parsed = ParsedData::Chunk(StreamChunk { choices: vec![choice(Some("Ha"), None)] });
    answer.on_data(&parsed);
    match answer.on_read(true, Some(&b"data: x\n\n"[..])) {
        AnswerRead::Cancelled(list) => assert_eq!(steps(&list), vec!["report Ha", "cancelled"]),
        _ => panic!("cancelled"),
    }

    let mut silent = AnswerStream::new();
    silent.on_read(false, Some(&b"data: x\n\n"[..]));
    match silent.poll(true) {
        AnswerPoll::Cancelled(list) => assert_eq!(steps(&list), vec!["cancelled"]),
        _ => panic!("cancelled"),
    }
}

#[test]
fn bytes_that_are_no_text_are_replaced() {
    let mut answer = AnswerStream::new();
    answer.on_read(false, Some(&[b'd', b'a', b't', b'a', b':', b' ', 0xFF, 0xC3, 0xA9, b'\n', b'\n'][..]));
    match answer.poll(false) {
        AnswerPoll::Event(data) => assert_eq!(described(&data), vec!["payload \u{FFFD}\u{e9}"]),
        _ => panic!("an event is complete"),
    }
}

#[test]
fn given_flag_decides_how_an_answer_begins() {
    let mut client = LlmClient::new(fake_config());
    let token = CancellationToken::new();
    token.cancel();
    assert!(matches!(
        client.chat_stream_with_history_and_token("Hello", token.clone()),
        StreamStart::Cancelled
    ));
    assert!(matches!(client.chat_stream_with_token("Hello", token), StreamStart::Cancelled));
    assert!(!client.is_cancelled());
    assert_eq!(client.history().len(), 1);

    client.cancel();
    assert!(matches!(client.chat_stream("Hello"), StreamStart::Cancelled));
    assert!(matches!(client.chat_stream_with_history("Hello"), StreamStart::Cancelled));
    assert_eq!(client.history().len(), 1);
    assert!(matches!(
        client.chat_stream_with_token("Hello", CancellationToken::new()),
        StreamStart::Request { .. }
    ));
    assert!(matches!(
        client.chat_stream_with_history_and_token("Hello", CancellationToken::new()),
        StreamStart::Request { .. }
    ));
    assert_eq!(client.history().len(), 3);
}

fn reply(code: u16, status: &str, body: &str) -> Reply {
    Reply::Answer { code, status: status.to_string(), body: body.to_string() }
}

#[test]
fn rate_limits_are_waited_out() {
    let mut retry = RetryState::new();
    let mut waits = Vec::new();
    for _ in 0..4 {
        assert!(retry.before_send(false).is_ok());
        match retry.on_reply(reply(429, "429 Too Many Requests", "slow down")) {
            RetryStep::RetryAfter(ms) => waits.push(ms),
            _ => panic!("tried again"),
        }
    }
    assert_eq!(waits, vec![100, 200, 400, 800]);
    match retry.on_reply(reply(503, "503 Service Unavailable", "busy")) {
        RetryStep::Fail(e) => {
            assert_eq!(e, "LLM API rate limit error 503 Service Unavailable: busy")
        }
        _ => panic!("given up"),
    }
}

#[test]
fn only_rate_limits_are_waited_out() {
    let mut retry = RetryState::new();
    assert!(matches!(retry.on_reply(reply(200, "200 OK", "")), RetryStep::Succeed));
    assert!(matches!(retry.on_reply(reply(299, "299", "")), RetryStep::Succeed));
    match retry.on_reply(reply(300, "300 Multiple Choices", "?")) {
        RetryStep::Fail(e) => assert_eq!(e, "LLM API error 300 Multiple Choices: ?"),
        _ => panic!("failed"),
    }
    match retry.on_reply(reply(401, "401 Unauthorized", "no key")) {
        RetryStep::Fail(e) => assert_eq!(e, "LLM API error 401 Unauthorized: no key"),
        _ => panic!("failed"),
    }
    match retry.on_reply(Reply::NetworkError("refused".to_string())) {
        RetryStep::Fail(e) => assert_eq!(e, "LLM API request error: refused"),
        _ => panic!("failed"),
    }
    assert!(!reads_body(200));
    assert!(!reads_body(299));
    assert!(reads_body(199));
    assert!(reads_body(300));
    assert_eq!(retry.before_send(true), Err("Request cancelled".to_string()));
}

#[test]
fn reported_answer_becomes_part_of_the_conversation() {
    let mut client = LlmClient::new(fake_config());
    let mut answer = match client.chat_stream_with_history("Say 'test' only") {
        StreamStart::Request { answer, .. } => answer,
        StreamStart::Cancelled => panic!("not cancelled"),
    };
    let parsed = ParsedData::Chunk(StreamChunk { choices: vec![choice(Some("test"), Some("stop"))] });
    let mut streamed = String::new();
    for step in answer.on_data(&parsed) {
        client.remember_report(&step);
        if let CollectStep::Yield(LlmChunk::Delta(text)) = step {
            streamed.push_str(&text);
        }
    }
    assert_eq!(streamed, "test");
    let history = client.history();
    assert_eq!(history.len(), 3);
    assert_eq!(history[2].role, Role::Assistant);
    assert_eq!(history[2].content, streamed);
}
