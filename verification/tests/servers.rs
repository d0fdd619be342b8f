//! Conversations over WebSockets and telephone lines, and their configuration.

use voice_agent::clock::MonotonicTime;
use voice_agent::encoding::{from_base64, to_base64};
use voice_agent::messages::{AudioCaptureMessage, AudioPlaybackMessage};
use voice_agent::pcm::{bytes_to_samples, samples_to_bytes};
use voice_agent::settings::{Environment, SpeechDefaults};
use voice_agent::twilio::audio::{boost, reduce, TtsDownsampler, TWILIO_FRAME_BYTES};
use voice_agent::twilio::call_handler::{
    handle_twilio_text_message, step_of_event, CallContext, CallStartStep, TextStep,
};
use voice_agent::twilio::tasks::{
    on_out_message, on_ping_due, on_playback, on_resampled, Incoming, PlaybackStep, Receiver,
    ReceiverStep, SenderStep, TwilioOutMessage,
};
use voice_agent::twilio::twilio::{
    clear_message, media_message, TwilioMediaEvent, TwilioMediaFormat, TwilioMediaPayload,
    TwilioStartEvent, TwilioStartMetadata,
};
use voice_agent::twilio::webhook::{call_dispatch, form_error, handle_twilio_webhook, Route};
use voice_agent::ulaw::{compress, expand};
use voice_agent::ws::{
    forward_failed, Frame, Heartbeat, PlaybackBatcher, SessionStep, WebSocketMessage,
    WebSocketResponse, WebSocketSession,
};

fn at_ms(ms: u64) -> MonotonicTime {
    MonotonicTime { nanos: ms * 1_000_000 }
}

fn s(text: &str) -> String {
    text.to_string()
}

fn play(samples: &[i16]) -> AudioPlaybackMessage {
    AudioPlaybackMessage::Play(samples.to_vec())
}

fn samples_in(response: Option<WebSocketResponse>) -> Option<Vec<i16>> {
    match response {
        Some(WebSocketResponse::Audio { data }) => {
            Some(bytes_to_samples(&from_base64(&data).unwrap()))
        }
        Some(_) => panic!("audio"),
        None => None,
    }
}

#[test]
fn audio_is_gathered_by_time() {
    let mut batcher = PlaybackBatcher::new(at_ms(0));
    assert_eq!(samples_in(batcher.on_message(play(&[1, 2]), at_ms(19))), None);
    assert_eq!(samples_in(batcher.on_message(play(&[3]), at_ms(20))), Some(vec![1, 2, 3]));
    batcher.on_sent(at_ms(20));
    assert_eq!(samples_in(batcher.on_message(play(&[4]), at_ms(39))), None);
    assert_eq!(samples_in(batcher.on_message(play(&[]), at_ms(40))), Some(vec![4]));
    batcher.on_sent(at_ms(40));
    assert_eq!(samples_in(batcher.on_message(play(&[]), at_ms(99))), None);
}

#[test]
fn audio_is_gathered_by_size() {
    let mut batcher = PlaybackBatcher::new(at_ms(0));
    assert_eq!(samples_in(batcher.on_message(play(&vec![7; 4799]), at_ms(0))), None);
    assert_eq!(
        samples_in(batcher.on_message(play(&[8]), at_ms(0))).map(|v| v.len()),
        Some(4800)
    );
}

#[test]
fn reset_drops_what_was_gathered() {
    let mut batcher = PlaybackBatcher::new(at_ms(0));
    batcher.on_message(play(&[1, 2, 3]), at_ms(1));
    assert!(matches!(
        batcher.on_message(AudioPlaybackMessage::Reset, at_ms(2)),
        Some(WebSocketResponse::Reset)
    ));
    assert_eq!(samples_in(batcher.on_message(play(&[9]), at_ms(30))), Some(vec![9]));
}

#[test]
fn client_audio_reaches_the_agent() {
    let mut session = WebSocketSession::new(at_ms(0));
    let data = to_base64(&samples_to_bytes(&[5, -6]));
    match session.handle_message(Ok(WebSocketMessage::Audio { data }), at_ms(1)) {
        SessionStep::Forward {
            message: AudioCaptureMessage::Chunk(samples),
            report_failure,
        } => {
            assert_eq!(samples, vec![5, -6]);
            assert!(report_failure);
        }
        _ => panic!("forwarded"),
    }
    match forward_failed() {
        WebSocketResponse::Error { message } => assert_eq!(message, "Failed to process audio"),
        _ => panic!("error"),
    }
    let odd = to_base64(&[1, 2, 3]);
    assert!(matches!(
        session.handle_message(Ok(WebSocketMessage::Audio { data: odd }), at_ms(1)),
        SessionStep::Nothing
    ));
}

fn error_of(step: SessionStep) -> String {
    match step {
        SessionStep::Reply(WebSocketResponse::Error { message }) => message,
        _ => panic!("error"),
    }
}

#[test]
fn client_errors_are_answered() {
    let mut session = WebSocketSession::new(at_ms(0));
    assert_eq!(
        error_of(session.handle_message(Ok(WebSocketMessage::Audio { data: s("!") }), at_ms(1))),
        "Invalid audio data: Invalid symbol 33, offset 0."
    );
    assert_eq!(
        error_of(session.handle_message(Err(s("expected value")), at_ms(1))),
        "Invalid message format: expected value"
    );
}

#[test]
fn heartbeat_times_out() {
    let mut session = WebSocketSession::new(at_ms(0));
    assert_eq!(session.hb(at_ms(10_000)), Heartbeat::Alive);
    assert_eq!(session.hb(MonotonicTime { nanos: 10_000_000_001 }), Heartbeat::TimedOut);
    assert!(matches!(
        session.handle_message(Ok(WebSocketMessage::Ping), at_ms(3000)),
        SessionStep::Reply(WebSocketResponse::Pong)
    ));
    assert_eq!(session.hb(at_ms(13_000)), Heartbeat::Alive);
    assert!(matches!(
        session.handle_message(Ok(WebSocketMessage::Pong), at_ms(4000)),
        SessionStep::Nothing
    ));
    assert_eq!(session.hb(at_ms(14_000)), Heartbeat::Alive);
    session.handle_message(Err(s("x")), at_ms(9000));
    assert_eq!(session.hb(at_ms(14_001)), Heartbeat::TimedOut);
    assert!(matches!(session.handle(Frame::Pong, at_ms(14_001)), SessionStep::Nothing));
    assert_eq!(session.hb(at_ms(14_001)), Heartbeat::Alive);
}

#[test]
fn frames_are_handled_by_kind() {
    let mut session = WebSocketSession::new(at_ms(0));
    match session.handle(Frame::Ping(vec![1, 2]), at_ms(20_000)) {
        SessionStep::Pong(bytes) => assert_eq!(bytes, vec![1, 2]),
        _ => panic!("answered"),
    }
    assert_eq!(session.hb(at_ms(30_000)), Heartbeat::Alive);
    match session.handle(Frame::Text(s("{}")), at_ms(1)) {
        SessionStep::Parse(text) => assert_eq!(text, "{}"),
        _ => panic!("read"),
    }
    match session.handle(Frame::Binary(vec![1, 0, 2, 0]), at_ms(1)) {
        SessionStep::Forward {
            message: AudioCaptureMessage::Chunk(samples),
            report_failure,
        } => {
            assert_eq!(samples, vec![1, 2]);
            assert!(!report_failure);
        }
        _ => panic!("forwarded"),
    }
    assert!(matches!(session.handle(Frame::Binary(vec![1]), at_ms(1)), SessionStep::Nothing));
    assert!(matches!(session.handle(Frame::Closed, at_ms(1)), SessionStep::Stop));
    assert!(session.request_stop());
    assert!(!session.request_stop());
}

#[test]
fn speech_is_cut_into_telephone_frames() {
    let samples: Vec<i16> = (0..500).map(|i| (i * 60) as i16 - 15000).collect();
    let codes = compress(&samples);
    let mut downsampler = TtsDownsampler::new();
    let mut frames = downsampler.process(&samples[..170]);
    assert_eq!(frames.len(), 1);
    frames.extend(downsampler.process(&samples[170..]));
    assert_eq!(frames.len(), 3);
    let last = downsampler.flush().unwrap();
    assert_eq!(last.len(), TWILIO_FRAME_BYTES);
    assert_eq!(last[..20], codes[480..]);
    assert!(last[20..].iter().all(|b| *b == 0xFF));
    let mut sent = frames.concat();
    sent.extend_from_slice(&last[..20]);
    assert_eq!(sent, codes);
    assert!(downsampler.flush().is_none());
    assert!(downsampler.process(&[]).is_empty());
}

#[test]
fn volume_is_adapted_to_the_telephone() {
    let all: Vec<i16> = (i16::MIN..=i16::MAX).collect();
    let boosted = boost(&all);
    let reduced = reduce(&all);
    for (i, sample) in all.iter().enumerate() {
        let louder = (*sample as f32 * 2.0).clamp(i16::MIN as f32, i16::MAX as f32) as i16;
        let quieter = (*sample as f32 * 0.5) as i16;
        assert_eq!(boosted[i], louder);
        assert_eq!(reduced[i], quieter);
    }
}

#[test]
fn stream_events_are_told_apart() {
    assert_eq!(handle_twilio_text_message("{\"event\":\"start\",\"x\":[1]}"), TextStep::ReadStart);
    assert_eq!(handle_twilio_text_message(" {\"event\" : \"media\"}"), TextStep::ReadMedia);
    assert_eq!(handle_twilio_text_message("{\"event\":\"stop\"}"), TextStep::Close);
    for text in [
        "{\"event\":\"connected\"}",
        "{\"event\":\"mark\"}",
        "{\"event\":\"dtmf\"}",
        "{\"event\":\"other\"}",
        "{\"event\":7}",
        "{}",
        "[]",
        "start",
        "",
    ] {
        assert_eq!(handle_twilio_text_message(text), TextStep::Ignore, "{}", text);
    }
    assert_eq!(step_of_event(&Some(Some(s("stop")))), TextStep::Close);
    assert_eq!(step_of_event(&Some(Some(s("start")))), TextStep::ReadStart);
    assert_eq!(step_of_event(&Some(Some(s("media")))), TextStep::ReadMedia);
    assert_eq!(step_of_event(&Some(Some(s("Stop")))), TextStep::Ignore);
    assert_eq!(step_of_event(&Some(None)), TextStep::Ignore);
    assert_eq!(step_of_event(&None), TextStep::Ignore);
}

fn start_event() -> TwilioStartEvent {
    TwilioStartEvent {
        event: s("start"),
        sequence_number: s("1"),
        start: TwilioStartMetadata {
            stream_sid: s("MZ1"),
            account_sid: s("AC1"),
            call_sid: s("CA1"),
            tracks: vec![s("inbound")],
            custom_parameters: vec![],
            media_format: TwilioMediaFormat {
                encoding: s("audio/x-mulaw"),
                sample_rate: 8000,
                channels: 1,
            },
        },
        stream_sid: s("MZ1"),
    }
}

fn media_event(payload: &str) -> TwilioMediaEvent {
    TwilioMediaEvent {
        event: s("media"),
        sequence_number: s("2"),
        media: TwilioMediaPayload {
            track: s("inbound"),
            chunk: s("1"),
            timestamp: s("5"),
            payload: s(payload),
        },
        stream_sid: s("MZ1"),
    }
}

fn started_call() -> CallContext {
    let mut call = CallContext::new();
    assert!(call.on_start(Some(&start_event())));
    call.init_resamplers(Ok(()), Ok(())).unwrap();
    assert!(call.begin_agent());
    assert_eq!(call.start_agent(Ok(())), Ok(s("Hello! How can I help you today?")));
    call
}

#[test]
fn call_starts_once() {
    let mut call = CallContext::new();
    assert!(!call.on_start(None));
    assert_eq!(call.get_stream_sid(), "");
    assert!(call.on_start(Some(&start_event())));
    assert_eq!(call.get_stream_sid(), "MZ1");
    assert_eq!(call.get_call_sid(), "CA1");
    assert_eq!(
        call.init_resamplers(Err(s("no")), Ok(())),
        Err(s("Failed to create audio resampler: no"))
    );
    assert_eq!(
        call.init_resamplers(Ok(()), Err(s("no"))),
        Err(s("Failed to create TTS downsampler: no"))
    );
    assert_eq!(call.init_resamplers(Ok(()), Ok(())), Ok(()));
    assert!(call.begin_agent());
    assert!(!call.begin_agent());
    assert_eq!(call.start_agent(Err(s("busy"))), Err(s("busy")));
    assert!(!call.is_agent_started());
    assert!(!call.shutdown_agent());
    call.start_agent(Ok(())).unwrap();
    assert!(call.is_agent_started());
    assert!(call.shutdown_agent());
    assert!(!call.is_stopping());
    call.shutdown();
    assert!(call.is_stopping());
    call.set_stream_sid(s("x"));
    call.set_call_sid(s("y"));
    assert_eq!(call.get_stream_sid(), "x");
    assert_eq!(call.get_call_sid(), "y");
}

fn start_step(
    call: &mut CallContext,
    readable: bool,
    resamplers: Option<(Result<(), String>, Result<(), String>)>,
    agent: Option<Result<(), String>>,
) -> String {
    let event = start_event();
    match call.start_step(if readable { Some(&event) } else { None }, resamplers, agent) {
        CallStartStep::Continue => s("continue"),
        CallStartStep::MakeResamplers => s("resamplers"),
        CallStartStep::StartAgent => s("agent"),
        CallStartStep::Close(e) => format!("close: {}", e),
        CallStartStep::Greet(text) => format!("greet: {}", text),
    }
}

#[test]
fn start_of_a_call_takes_its_course() {
    let made = Some((Ok(()), Ok(())));
    let mut call = CallContext::new();
    assert_eq!(start_step(&mut call, false, made.clone(), Some(Err(s("busy")))), "continue");
    assert_eq!(call.get_stream_sid(), "");
    assert_eq!(start_step(&mut call, true, None, None), "resamplers");
    assert_eq!(call.get_stream_sid(), "MZ1");
    assert_eq!(call.get_call_sid(), "CA1");
    assert_eq!(start_step(&mut call, true, made.clone(), None), "agent");
    assert!(!call.is_agent_started());
    assert_eq!(
        start_step(&mut call, true, made.clone(), Some(Ok(()))),
        "greet: Hello! How can I help you today?"
    );
    assert!(call.is_agent_started());
    let event = media_event(&to_base64(&[255]));
    assert_eq!(call.on_media(Some(&event)), Some(vec![0]));
    assert_eq!(start_step(&mut call, true, None, None), "resamplers");
    assert_eq!(start_step(&mut call, true, made, None), "continue");
}

#[test]
fn failed_start_ends_the_call() {
    let mut call = CallContext::new();
    let no = Err(s("no"));
    assert_eq!(
        start_step(&mut call, true, Some((no.clone(), Ok(()))), None),
        "close: Failed to create audio resampler: no"
    );
    assert_eq!(
        start_step(&mut call, true, Some((Ok(()), no.clone())), None),
        "close: Failed to create TTS downsampler: no"
    );
    assert_eq!(
        start_step(&mut call, true, Some((Ok(()), no)), Some(Ok(()))),
        "close: Failed to create TTS downsampler: no"
    );
    assert_eq!(
        start_step(&mut call, true, Some((Ok(()), Ok(()))), Some(Err(s("busy")))),
        "close: busy"
    );
    assert!(!call.is_agent_started());
}

#[test]
fn caller_audio_reaches_a_started_agent() {
    let codes: Vec<u8> = vec![0, 128, 255];
    let event = media_event(&to_base64(&codes));
    assert_eq!(CallContext::new().on_media(Some(&event)), None);
    let call = started_call();
    assert_eq!(call.on_media(Some(&event)), Some(expand(&codes)));
    assert_eq!(call.on_media(Some(&event)), Some(vec![-32124, 32124, 0]));
    assert_eq!(call.on_media(Some(&media_event("?"))), None);
    assert_eq!(call.on_media(Some(&media_event(""))), None);
    assert_eq!(call.on_media(None), None);
    match CallContext::forward_media(&[100, 20000]) {
        Some(AudioCaptureMessage::Chunk(samples)) => assert_eq!(samples, vec![200, 32767]),
        None => panic!("forwarded"),
    }
    assert!(CallContext::forward_media(&[]).is_none());
}

fn sender(steps: Vec<SenderStep>) -> Vec<String> {
    steps
        .into_iter()
        .map(|step| match step {
            SenderStep::SendMedia { message, required } => {
                format!("{} {} {} {}", message.event, message.stream_sid, message.media.payload, required)
            }
            SenderStep::SendClear(message) => format!("{} {}", message.event, message.stream_sid),
            SenderStep::SendPong(bytes) => format!("pong {:?}", bytes),
            SenderStep::SendPing => s("ping"),
            SenderStep::Yield => s("yield"),
            SenderStep::Close => s("close"),
        })
        .collect()
}

#[test]
fn sender_sends_frames_in_order() {
    let mut call = started_call();
    let frames: Vec<Vec<u8>> = (0..7).map(|i| vec![i]).collect();
    assert_eq!(
        sender(on_out_message(&mut call, Some(TwilioOutMessage::Audio(frames)))),
        vec![
            "media MZ1 AA== true",
            "media MZ1 AQ== true",
            "media MZ1 Ag== true",
            "media MZ1 Aw== true",
            "media MZ1 BA== true",
            "media MZ1 BQ== true",
            "yield",
            "media MZ1 Bg== true",
        ]
    );
    assert_eq!(sender(on_out_message(&mut call, Some(TwilioOutMessage::Clear))), vec!["clear MZ1"]);
    assert_eq!(
        sender(on_out_message(&mut call, Some(TwilioOutMessage::Pong(vec![4])))),
        vec!["pong [4]"]
    );
    assert_eq!(sender(vec![on_ping_due(&call)]), vec!["ping"]);
    assert_eq!(sender(on_out_message(&mut call, Some(TwilioOutMessage::Shutdown))), vec!["close"]);
    assert_eq!(sender(on_out_message(&mut call, None)), vec!["close"]);
    call.shutdown();
    assert_eq!(
        sender(on_out_message(&mut call, Some(TwilioOutMessage::Audio(vec![])))),
        vec!["close"]
    );
    assert_eq!(sender(vec![on_ping_due(&call)]), vec!["close"]);
}

#[test]
fn sender_sends_nothing_before_the_stream_has_its_name() {
    let mut call = CallContext::new();
    assert!(on_out_message(&mut call, Some(TwilioOutMessage::Audio(vec![vec![1]]))).is_empty());
    assert!(on_out_message(&mut call, Some(TwilioOutMessage::Clear)).is_empty());
    assert!(on_out_message(&mut call, Some(TwilioOutMessage::Flush)).is_empty());
    assert!(media_message("", &[1]).is_none());
    assert!(clear_message("").is_none());
    assert_eq!(media_message("a", &[1]).unwrap().media.payload, "AQ==");
    assert_eq!(clear_message("a").unwrap().event, "clear");
}

#[test]
fn speech_reaches_the_sender() {
    let mut call = started_call();
    match on_playback(&call, play(&[101, -101])) {
        PlaybackStep::Resample(samples) => assert_eq!(samples, vec![50, -50]),
        _ => panic!("resampled"),
    }
    assert!(matches!(
        on_playback(&call, AudioPlaybackMessage::Reset),
        PlaybackStep::Tell(TwilioOutMessage::Clear)
    ));
    assert!(on_resampled(&mut call, &[0; 100]).is_none());
    match on_resampled(&mut call, &[0; 100]) {
        Some(TwilioOutMessage::Audio(frames)) => assert_eq!(frames, vec![vec![0xFF; 160]]),
        _ => panic!("a frame"),
    }
    let flushed = on_out_message(&mut call, Some(TwilioOutMessage::Flush));
    assert_eq!(flushed.len(), 1);
    assert!(matches!(flushed[0], SenderStep::SendMedia { required: false, .. }));
    assert!(on_out_message(&mut call, Some(TwilioOutMessage::Flush)).is_empty());
    call.shutdown();
    assert!(matches!(on_playback(&call, play(&[1])), PlaybackStep::Stop));
    assert!(on_resampled(&mut CallContext::new(), &[0; 500]).is_none());
}

#[test]
fn receiver_follows_the_connection() {
    let mut call = started_call();
    let mut receiver = Receiver::new(at_ms(0));
    match receiver.on_incoming(Incoming::Ping(vec![3]), at_ms(1000)) {
        ReceiverStep::Tell(TwilioOutMessage::Pong(bytes)) => assert_eq!(bytes, vec![3]),
        _ => panic!("answered"),
    }
    assert!(matches!(receiver.on_check(&call, at_ms(31_000)), ReceiverStep::Continue));
    assert!(matches!(receiver.on_check(&call, at_ms(31_001)), ReceiverStep::Stop));
    assert!(matches!(
        receiver.on_incoming(Incoming::Pong, at_ms(2000)),
        ReceiverStep::Continue
    ));
    assert!(matches!(receiver.on_check(&call, at_ms(32_000)), ReceiverStep::Continue));
    match receiver.on_incoming(Incoming::Text(s("t")), at_ms(9000)) {
        ReceiverStep::HandleText(text) => assert_eq!(text, "t"),
        _ => panic!("handled"),
    }
    assert!(matches!(
        receiver.on_incoming(Incoming::Other, at_ms(9000)),
        ReceiverStep::Continue
    ));
    assert!(matches!(receiver.on_incoming(Incoming::Close, at_ms(9000)), ReceiverStep::Stop));
    call.shutdown();
    assert!(matches!(receiver.on_check(&call, at_ms(2000)), ReceiverStep::Stop));
    let farewell = Receiver::farewell();
    assert_eq!(farewell.len(), 2);
    assert!(matches!(farewell[0], TwilioOutMessage::Flush));
    assert!(matches!(farewell[1], TwilioOutMessage::Shutdown));
}

#[test]
fn requests_are_dispatched() {
    assert_eq!(call_dispatch("GET", Some("websocket")), Route::WebSocket);
    assert_eq!(call_dispatch("POST", Some("WebSocket")), Route::WebSocket);
    assert_eq!(call_dispatch("POST", Some("h2c")), Route::Webhook);
    assert_eq!(call_dispatch("POST", None), Route::Webhook);
    assert_eq!(call_dispatch("GET", None), Route::MethodNotAllowed);
    assert_eq!(call_dispatch("GET", Some("")), Route::MethodNotAllowed);
    assert_eq!(call_dispatch("post", None), Route::MethodNotAllowed);
}

#[test]
fn call_is_connected_to_a_stream() {
    assert_eq!(
        handle_twilio_webhook(Some("example.com")),
        r#"<?xml version="1.0" encoding="UTF-8"?>
<Response>
    <Connect>
        <Stream url="wss://example.com/call" />
    </Connect>
</Response>"#
    );
    assert!(handle_twilio_webhook(None).contains("wss://localhost:8080/call"));
    assert_eq!(form_error("bad"), "Failed to parse form data: bad");
}

fn empty_environment() -> Environment {
    Environment {
        gradium_api_key: None,
        stt_endpoint: None,
        stt_language: None,
        tts_endpoint: None,
        tts_voice_id: None,
        openai_api_key: None,
        llm_api_key: None,
        openai_model: None,
        llm_model: None,
        llm_endpoint: None,
        llm_system_prompt: None,
        bind_addr: None,
    }
}

fn speech_defaults() -> SpeechDefaults {
    SpeechDefaults { stt_endpoint: s("se"), tts_endpoint: s("te"), tts_voice_id: s("v") }
}

#[test]
fn environment_has_defaults() {
    let mut env = empty_environment();
    assert_eq!(
        env.voice_config(&speech_defaults()).err(),
        Some(s("GRADIUM_API_KEY environment variable not set"))
    );
    env.gradium_api_key = Some(s("g"));
    assert_eq!(
        env.voice_config(&speech_defaults()).err(),
        Some(s("OPENAI_API_KEY or LLM_API_KEY environment variable not set"))
    );
    env.llm_api_key = Some(s("l"));
    let config = env.voice_config(&speech_defaults()).ok().unwrap();
    assert_eq!(config.stt_api_key, "g");
    assert_eq!(config.tts_api_key, "g");
    assert_eq!(config.stt_endpoint, "se");
    assert_eq!(config.stt_language, "en");
    assert_eq!(config.tts_endpoint, "te");
    assert_eq!(config.tts_voice_id, "v");
    assert_eq!(config.llm_api_key, "l");
    assert_eq!(config.llm_model, "gpt-4o-mini");
    assert_eq!(config.llm_endpoint, "https://api.openai.com/v1/chat/completions");
    assert_eq!(
        config.llm_system_prompt,
        "You are a helpful voice assistant. Keep your responses concise and conversational."
    );
    assert_eq!(env.listen_addr(), "127.0.0.1:8080");
}

#[test]
fn environment_overrides_defaults() {
    let mut env = empty_environment();
    assert_eq!(
        env.console_config().err(),
        Some(s("OPENAI_API_KEY or LLM_API_KEY environment variable not set"))
    );
    env.gradium_api_key = Some(s("g"));
    env.openai_api_key = Some(s("o"));
    env.llm_api_key = Some(s("l"));
    env.openai_model = Some(s("om"));
    env.llm_model = Some(s("lm"));
    env.llm_endpoint = Some(s("https://api.groq.com/openai/v1/chat/completions"));
    env.stt_language = Some(s("de"));
    env.stt_endpoint = Some(s("x"));
    env.tts_endpoint = Some(s("y"));
    env.tts_voice_id = Some(s("z"));
    env.bind_addr = Some(s("0.0.0.0:1"));
    let config = env.voice_config(&speech_defaults()).ok().unwrap();
    assert_eq!(config.llm_api_key, "o");
    assert_eq!(config.llm_model, "om");
    assert_eq!(config.llm_endpoint, "https://api.groq.com/openai/v1/chat/completions");
    assert_eq!(config.stt_language, "de");
    assert_eq!(config.stt_endpoint, "x");
    assert_eq!(config.tts_endpoint, "y");
    assert_eq!(config.tts_voice_id, "z");
    assert_eq!(env.listen_addr(), "0.0.0.0:1");
    env.openai_model = None;
    let console = env.console_config().unwrap();
    assert_eq!(console.model, "lm");
    assert_eq!(
        console.system_prompt,
        Some(s("You are a helpful assistant. Keep responses brief."))
    );
    assert_eq!(console.max_tokens, None);
    env.llm_system_prompt = Some(s("p"));
    assert_eq!(env.console_config().unwrap().system_prompt, Some(s("p")));
}
