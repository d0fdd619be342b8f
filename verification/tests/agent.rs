//! The parts of a voice agent.

use voice_agent::clock::MonotonicTime;
use voice_agent::encoding::to_base64;
use voice_agent::ieee754::F32Bits;
use voice_agent::llm::client::StreamStart;
use voice_agent::llm::history::DEFAULT_SYSTEM_PROMPT;
use voice_agent::llm::{LlmChunk, LlmHistory, Message, Role};
use voice_agent::messages::AudioPlaybackMessage;
use voice_agent::outbox::Outbox;
use voice_agent::pause_detector::PauseDetector;
use voice_agent::pcm::samples_to_bytes;
use voice_agent::stt_handle::{SttHandle, SttHandleError};
use voice_agent::text::{char_is_white_space, lines_of, strip_prefix, text_eq, trim_text};
use voice_agent::tts_handle::{TtsHandle, TtsHandleError};
use voice_agent::voice_agent::agent::{Config, ShutdownStep, StartStep, VoiceAgent};
use voice_agent::voice_agent::gate::{after_wait, gate, Gate};
use voice_agent::voice_agent::handler::{
    ask, notify, Notice, VoiceAgentEventHandler, VoiceAgentNoOpEventHandler,
};
use voice_agent::voice_agent::listening::{ListenStep, Listener, SttEvent, SttInput};
use voice_agent::voice_agent::main_loop::{Action, MainLoop};
use voice_agent::voice_agent::sentences::SentenceBuffer;
use voice_agent::voice_agent::speaking;
use voice_agent::voice_agent::speaking::{SpeakStep, TtsEvent, TtsInput};
use voice_agent::voice_agent::turn::{chat_error, Turn};
use voice_agent::voice_agent::VoiceAgentEvent;

fn at_ms(ms: u64) -> MonotonicTime {
    MonotonicTime { nanos: ms * 1_000_000 }
}

fn prob(x: f32) -> F32Bits {
    F32Bits { bits: x.to_bits() }
}

fn s(text: &str) -> String {
    text.to_string()
}

#[test]
fn white_space_is_what_the_language_says() {
    for u in 0..=0x10FFFFu32 {
        if let Some(c) = char::from_u32(u) {
            assert_eq!(char_is_white_space(c), c.is_whitespace(), "U+{:X}", u);
        }
    }
}

#[test]
fn text_helpers_agree_with_the_language() {
    for text in ["", " ", "a", " a b \t", "\u{2003}x\u{a0}", "\n\r\n", "a\nb\r\nc\r", "\n\na\n", "x\r\r\n"] {
        assert_eq!(trim_text(text), text.trim());
        assert_eq!(lines_of(text), text.lines().map(|l| l.to_string()).collect::<Vec<String>>());
        assert_eq!(strip_prefix(text, "a"), text.strip_prefix("a"));
        assert_eq!(strip_prefix(text, ""), Some(text));
        assert!(text_eq(text, text));
        assert!(!text_eq(text, "other"));
    }
}

#[test]
fn elapsed_time_never_runs_back() {
    assert_eq!(at_ms(5).elapsed_millis(at_ms(12)), 7);
    assert_eq!(at_ms(12).elapsed_millis(at_ms(5)), 0);
    let t = MonotonicTime { nanos: 1 };
    assert_eq!(t.elapsed_millis(MonotonicTime { nanos: 1_000_000 }), 0);
    assert_eq!(t.elapsed_millis(MonotonicTime { nanos: 1_000_001 }), 1);
    assert_eq!(t.elapsed_nanos(MonotonicTime { nanos: 4 }), 3);
}

#[test]
fn speech_is_cut_at_breaks() {
    let mut buffer = SentenceBuffer::new();
    assert_eq!(buffer.push("Hel"), Vec::<String>::new());
    assert_eq!(buffer.push("lo wor"), Vec::<String>::new());
    assert_eq!(buffer.push("ld!  How\tare you"), vec!["Hello world!"]);
    assert_eq!(buffer.rest(), "How\tare you");
    assert_eq!(buffer.push("?\n"), vec!["How\tare you?"]);
    assert_eq!(buffer.push(" one line\nand. an"), vec!["one line", "and."]);
    assert_eq!(buffer.push("other\n"), vec!["another"]);
    assert_eq!(buffer.rest(), "");
}

fn turn_events(parts: &[&str]) -> Vec<VoiceAgentEvent> {
    let mut turn = Turn::new();
    let mut events = Vec::new();
    for part in parts {
        events.extend(turn.on_chunk(LlmChunk::Delta(part.to_string())));
    }
    events.extend(turn.on_chunk(LlmChunk::Done));
    assert!(turn.is_over());
    assert_eq!(turn.response(), parts.concat());
    assert!(turn.on_chunk(LlmChunk::Delta(s("late "))).is_empty());
    assert_eq!(turn.response(), parts.concat());
    events
}

#[test]
fn parts_of_an_answer_do_not_matter() {
    let text = "One. Two!  And three";
    let expected = vec![
        VoiceAgentEvent::LlmResponseChunk(s("One.")),
        VoiceAgentEvent::LlmResponseChunk(s("Two!")),
        VoiceAgentEvent::LlmResponseDone(s("And three")),
    ];
    assert_eq!(turn_events(&[text]), expected);
    for cut in 0..=text.len() {
        assert_eq!(turn_events(&[&text[..cut], &text[cut..]]), expected);
    }
}

#[test]
fn sentences_are_handed_on_whole() {
    assert_eq!(
        turn_events(&["Hi there. By", "e"]),
        vec![
            VoiceAgentEvent::LlmResponseChunk(s("Hi there.")),
            VoiceAgentEvent::LlmResponseDone(s("Bye")),
        ]
    );
}

#[test]
fn every_word_is_spoken() {
    let text = " What?!  A\tfine day...\nIsn't it ";
    let mut spoken = String::new();
    for event in turn_events(&[text]) {
        match event {
            VoiceAgentEvent::LlmResponseChunk(t) | VoiceAgentEvent::LlmResponseDone(t) => {
                spoken.extend(t.chars().filter(|c| !c.is_whitespace()))
            }
            _ => panic!("nothing else"),
        }
    }
    let dense: String = text.chars().filter(|c| !c.is_whitespace()).collect();
    assert_eq!(spoken, dense);
}

#[test]
fn cancelled_turn_says_nothing_more() {
    let mut turn = Turn::new();
    assert_eq!(turn.on_chunk(LlmChunk::Delta(s("A whole. Half a sen"))).len(), 1);
    assert!(turn.on_chunk(LlmChunk::Cancelled).is_empty());
    assert!(turn.is_over());
    assert!(turn.on_chunk(LlmChunk::Done).is_empty());
    assert_eq!(turn.response(), "A whole. Half a sen");
    assert_eq!(chat_error("boom"), VoiceAgentEvent::LlmError(s("LLM chat error: boom")));
}

fn listen_steps(steps: Vec<ListenStep>) -> Vec<String> {
    steps
        .into_iter()
        .map(|step| match step {
            ListenStep::FlushBySilence => s("flush"),
            ListenStep::CheckPause => s("check"),
            ListenStep::SetReconnecting => s("reconnecting"),
            ListenStep::Send(event) => format!("{:?}", event),
        })
        .collect()
}

fn step(probs: &[f32]) -> SttInput {
    SttInput::Event(SttEvent::Step { vad: probs.iter().map(|p| prob(*p)).collect() })
}

fn words(text: &str) -> SttInput {
    SttInput::Event(SttEvent::Text { text: s(text) })
}

#[test]
fn user_input_is_delivered_after_a_pause() {
    let mut listener = Listener::new(at_ms(0));
    assert_eq!(listen_steps(listener.on_event(step(&[0.0, 0.0, 0.99]))), vec!["check"]);
    assert!(listener.check_pause(at_ms(5)).is_none());

    assert_eq!(listen_steps(listener.on_event(words("  Hello "))), vec!["UserBreak(\"Hello\")"]);
    assert!(listen_steps(listener.on_event(words(" \t"))).is_empty());
    assert_eq!(listen_steps(listener.on_event(words("there"))), vec!["UserBreak(\"there\")"]);

    assert_eq!(listen_steps(listener.on_event(step(&[1.0, 1.0, 0.6]))), vec!["check"]);
    assert_eq!(listen_steps(listener.on_event(step(&[0.0, 0.0]))), vec!["check"]);
    assert_eq!(listen_steps(listener.on_event(step(&[0.0, 0.0, 0.61]))), vec!["flush", "check"]);
    listener.on_flushed(at_ms(1000));
    assert_eq!(listen_steps(listener.on_event(step(&[0.0, 0.0, 0.99]))), vec!["check"]);
    assert!(listener.check_pause(at_ms(1600)).is_none());
    assert_eq!(
        listener.check_pause(at_ms(1601)),
        Some(VoiceAgentEvent::UserInput(s(" Hello there")))
    );
    assert!(listener.check_pause(at_ms(9000)).is_none());

    // What is said later begins anew.
    listener.on_event(words("Again"));
    assert_eq!(listen_steps(listener.on_event(step(&[0.0, 0.0, 0.7]))), vec!["flush", "check"]);
    listener.on_flushed(at_ms(10000));
    listener.on_event(words("please"));
    assert_eq!(
        listener.check_pause(at_ms(10700)),
        Some(VoiceAgentEvent::UserInput(s(" Again please")))
    );
}

#[test]
fn no_number_is_no_pause() {
    let mut listener = Listener::new(at_ms(0));
    listener.on_event(words("Hello"));
    assert_eq!(listen_steps(listener.on_event(step(&[0.0, 0.0, f32::NAN]))), vec!["check"]);
}

#[test]
fn failures_of_recognition_are_reported() {
    let mut listener = Listener::new(at_ms(0));
    assert_eq!(
        listen_steps(listener.on_event(SttInput::Event(SttEvent::Error {
            message: s("bad"),
            code: s("7"),
        }))),
        vec!["reconnecting", "SttError(\"STT error: bad (code: 7)\")"]
    );
    assert_eq!(
        listen_steps(listener.on_event(SttInput::Event(SttEvent::EndOfStream))),
        vec!["reconnecting", "SttCloseOrEos"]
    );
    assert_eq!(
        listen_steps(listener.on_event(SttInput::Event(SttEvent::Close))),
        vec!["reconnecting", "SttCloseOrEos"]
    );
    assert_eq!(
        listen_steps(listener.on_event(SttInput::NotConnected)),
        vec!["reconnecting", "SttError(\"STT client not connected\")"]
    );
    assert_eq!(
        listen_steps(listener.on_event(SttInput::Failed(s("gone")))),
        vec!["reconnecting", "SttError(\"STT event error: gone\")"]
    );
    for event in [SttEvent::EndText, SttEvent::Ready, SttEvent::Ping, SttEvent::Pong, SttEvent::Frame] {
        assert!(listener.on_event(SttInput::Event(event)).is_empty());
    }
}

fn speak_steps(steps: Vec<SpeakStep>) -> Vec<String> {
    steps
        .into_iter()
        .map(|step| match step {
            SpeakStep::Playback(AudioPlaybackMessage::Play(samples)) => format!("play {:?}", samples),
            SpeakStep::Playback(AudioPlaybackMessage::Reset) => s("reset"),
            SpeakStep::SetReconnecting => s("reconnecting"),
            SpeakStep::Send(event) => format!("{:?}", event),
        })
        .collect()
}

fn audio(text: &str) -> TtsInput {
    TtsInput::Event(TtsEvent::Audio { audio: s(text) })
}

#[test]
fn audio_is_played_as_sent() {
    let text = to_base64(&samples_to_bytes(&[1, -2, 300]));
    assert_eq!(speak_steps(speaking::on_event(audio(&text), false)), vec!["play [1, -2, 300]"]);
    assert!(speaking::on_event(audio(&text), true).is_empty());
    assert!(speaking::on_event(audio("no base64"), false).is_empty());
    let odd = to_base64(&[5, 0, 9]);
    assert_eq!(speak_steps(speaking::on_event(audio(&odd), false)), vec!["play [5]"]);
}

#[test]
fn failures_of_synthesis_are_reported() {
    assert_eq!(
        speak_steps(speaking::on_event(
            TtsInput::Event(TtsEvent::Error { message: s("bad"), code: s("7") }),
            true
        )),
        vec!["reconnecting", "TtsError(\"bad\")"]
    );
    for event in [TtsEvent::EndOfStream, TtsEvent::Close] {
        assert_eq!(
            speak_steps(speaking::on_event(TtsInput::Event(event), false)),
            vec!["reconnecting", "TtsCloseOrEos"]
        );
    }
    assert_eq!(
        speak_steps(speaking::on_event(TtsInput::NotConnected, false)),
        vec!["reconnecting", "TtsError(\"TTS client not connected\")"]
    );
    assert_eq!(
        speak_steps(speaking::on_event(TtsInput::Failed(s("gone")), false)),
        vec!["reconnecting", "TtsError(\"gone\")"]
    );
    for event in [
        TtsEvent::Ready,
        TtsEvent::TextEcho { text: s("x") },
        TtsEvent::Ping,
        TtsEvent::Pong,
        TtsEvent::Frame,
    ] {
        assert!(speaking::on_event(TtsInput::Event(event), false).is_empty());
    }
}

fn actions(list: Vec<Action>) -> Vec<String> {
    list.iter().map(|a| format!("{:?}", a)).collect()
}

#[test]
fn new_answer_resets_the_playback_once() {
    let mut main = MainLoop::new();
    assert_eq!(
        actions(main.on_event(VoiceAgentEvent::UserInput(s("Hi")))),
        vec!["AskHandler(\"Hi\")"]
    );
    assert_eq!(
        actions(main.on_event(VoiceAgentEvent::LlmResponseChunk(s("Hello")))),
        vec![
            "Notify(LlmResponseChunk(\"Hello\"))",
            "ResetPlayback",
            "WaitMs(10)",
            "Notify(TtsSpeech(\"Hello\"))",
            "Speak(\"Hello\")",
        ]
    );
    assert_eq!(
        actions(main.on_event(VoiceAgentEvent::LlmResponseDone(s("you")))),
        vec![
            "Notify(LlmResponseDone(\"you\"))",
            "Notify(TtsSpeech(\"you\"))",
            "Speak(\"you\")",
            "EndSpeech",
        ]
    );
}

#[test]
fn empty_end_of_an_answer_is_not_spoken() {
    let mut main = MainLoop::new();
    main.on_event(VoiceAgentEvent::UserInput(s("Hi")));
    assert_eq!(
        actions(main.on_event(VoiceAgentEvent::LlmResponseDone(s("")))),
        vec!["Notify(LlmResponseDone(\"\"))", "ResetPlayback", "WaitMs(10)", "EndSpeech"]
    );
    main.on_event(VoiceAgentEvent::UserInput(s("Hi")));
    assert_eq!(
        actions(main.on_event(VoiceAgentEvent::LlmError(s("no")))),
        vec!["Notify(LlmError(\"no\"))", "ResetPlayback", "WaitMs(10)", "EndSpeech"]
    );
    assert_eq!(
        actions(main.on_event(VoiceAgentEvent::LlmResponseChunk(s("")))),
        vec!["Notify(LlmResponseChunk(\"\"))"]
    );
}

#[test]
fn interruption_cancels_everything() {
    let mut main = MainLoop::new();
    main.on_event(VoiceAgentEvent::UserInput(s("Hi")));
    assert_eq!(
        actions(main.on_event(VoiceAgentEvent::UserBreak(s("stop")))),
        vec![
            "Notify(UserBreak(\"stop\"))",
            "DiscardSpeech",
            "CancelLlm",
            "CancelSpeech",
            "ResetPlayback",
        ]
    );
    assert_eq!(
        actions(main.on_event(VoiceAgentEvent::LlmResponseChunk(s("late")))),
        vec!["Notify(LlmResponseChunk(\"late\"))", "Notify(TtsSpeech(\"late\"))", "Speak(\"late\")"]
    );
}

#[test]
fn connections_are_renewed() {
    let mut main = MainLoop::new();
    assert_eq!(
        actions(main.on_event(VoiceAgentEvent::TtsError(s("e")))),
        vec!["Notify(TtsError(\"e\"))", "ReconnectSpeech"]
    );
    assert_eq!(
        actions(main.on_event(VoiceAgentEvent::TtsCloseOrEos)),
        vec!["Notify(TtsCloseOrEos)", "ReconnectSpeech"]
    );
    assert_eq!(
        actions(main.on_event(VoiceAgentEvent::SttError(s("e")))),
        vec!["Notify(SttError(\"e\"))", "ReconnectRecognition"]
    );
    assert_eq!(
        actions(main.on_event(VoiceAgentEvent::SttCloseOrEos)),
        vec!["Notify(SttCloseOrEos)", "ReconnectRecognition"]
    );
}

#[test]
fn loop_ends_with_an_error_or_shutdown() {
    let mut main = MainLoop::new();
    assert_eq!(
        actions(main.on_event(VoiceAgentEvent::TtsSpeech(s("Hello!")))),
        vec!["Notify(TtsSpeech(\"Hello!\"))", "Speak(\"Hello!\")", "EndSpeech"]
    );
    assert_eq!(
        actions(main.on_event(VoiceAgentEvent::Error(s("fatal")))),
        vec!["Notify(Error(\"fatal\"))", "Stop"]
    );
    assert!(main.is_stopped());
    assert!(main.on_event(VoiceAgentEvent::Shutdown).is_empty());

    let mut main = MainLoop::new();
    assert_eq!(
        actions(main.on_event(VoiceAgentEvent::Shutdown)),
        vec!["Notify(Shutdown)", "Stop"]
    );
    assert!(main.is_stopped());

    let mut main = MainLoop::new();
    assert!(!main.is_stopped());
    main.stop();
    assert!(main.is_stopped());
    assert!(main.on_event(VoiceAgentEvent::UserInput(s("x"))).is_empty());
}

struct Log {
    lines: std::sync::Mutex<Vec<String>>,
}

impl Log {
    fn add(&self, line: &str) {
        self.lines.lock().unwrap().push(line.to_string());
    }
}

impl VoiceAgentEventHandler for Log {
    fn on_user_input(&self, input: String) -> String {
        format!("[Modified] {}", input)
    }
    fn on_user_break(&self, text: String) {
        self.add(&format!("break {}", text));
    }
    fn on_tts_speech(&self, text: String) {
        self.add(&format!("speech {}", text));
    }
    fn on_tts_error(&self, error: String) {
        self.add(&format!("tts error {}", error));
    }
    fn on_stt_error(&self, error: String) {
        self.add(&format!("stt error {}", error));
    }
    fn on_tts_close_or_eos(&self) {
        self.add("tts close");
    }
    fn on_stt_close_or_eos(&self) {
        self.add("stt close");
    }
    fn on_error(&self, error_message: String) {
        self.add(&format!("error {}", error_message));
    }
    fn on_llm_error(&self, error_message: String) {
        self.add(&format!("llm error {}", error_message));
    }
    fn on_llm_response_chunk(&self, text: String) {
        self.add(&format!("chunk {}", text));
    }
    fn on_llm_response_done(&self, text: String) {
        self.add(&format!("done {}", text));
    }
    fn on_shutdown(&self) {
        self.add("shutdown");
    }
}

#[test]
fn each_notice_reaches_its_method() {
    let log = Log { lines: std::sync::Mutex::new(Vec::new()) };
    let handler: &dyn VoiceAgentEventHandler = &log;
    for notice in [
        Notice::UserBreak(s("a")),
        Notice::TtsSpeech(s("b")),
        Notice::TtsError(s("c")),
        Notice::SttError(s("d")),
        Notice::TtsCloseOrEos,
        Notice::SttCloseOrEos,
        Notice::Error(s("e")),
        Notice::LlmError(s("f")),
        Notice::LlmResponseChunk(s("g")),
        Notice::LlmResponseDone(s("h")),
        Notice::Shutdown,
    ] {
        notify(handler, notice);
    }
    assert_eq!(
        *log.lines.lock().unwrap(),
        vec![
            "break a",
            "speech b",
            "tts error c",
            "stt error d",
            "tts close",
            "stt close",
            "error e",
            "llm error f",
            "chunk g",
            "done h",
            "shutdown",
        ]
    );
    assert_eq!(handler.on_user_input(s("x")), "[Modified] x");
    assert_eq!(VoiceAgentNoOpEventHandler.on_user_input(s("x")), "x");
    assert_eq!(ask(handler, s("y")), "[Modified] y");
    assert_eq!(ask(&VoiceAgentNoOpEventHandler, s("x")), "x");
    notify(&VoiceAgentNoOpEventHandler, Notice::Shutdown);
}

#[test]
fn gate_follows_the_connection() {
    assert_eq!(gate(true, false), Gate::Wait(40));
    assert_eq!(gate(true, true), Gate::Wait(40));
    assert_eq!(gate(false, true), Gate::Stop);
    assert_eq!(gate(false, false), Gate::Read);
    assert_eq!(after_wait(true), Gate::Stop);
    assert_eq!(after_wait(false), Gate::Again);
}

fn config() -> Config {
    Config {
        stt_api_key: s("sk"),
        stt_endpoint: s("se"),
        stt_language: s("en"),
        tts_api_key: s("tk"),
        tts_endpoint: s("te"),
        tts_voice_id: s("v"),
        llm_api_key: s("lk"),
        llm_model: s("m"),
        llm_endpoint: s("le"),
        llm_system_prompt: s("Be kind."),
    }
}

fn started() -> VoiceAgent {
    let mut agent = VoiceAgent::new(config());
    assert!(matches!(agent.start(Some(Ok(())), Some(Ok(()))), StartStep::SpawnTasks));
    agent
}

#[test]
fn agent_starts_step_by_step() {
    let mut agent = VoiceAgent::new(config().clone());
    assert_eq!(agent.config().stt_language, "en");
    assert!(matches!(agent.start(None, None), StartStep::ConnectStt));
    match agent.start(Some(Err(s("refused"))), None) {
        StartStep::Fail(e) => assert_eq!(e, "STT connection failed: refused"),
        _ => panic!("failed"),
    }
    assert!(matches!(agent.start(Some(Ok(())), None), StartStep::ConnectTts));
    match agent.start(Some(Ok(())), Some(Err(s("busy")))) {
        StartStep::ShutdownSttAndFail(e) => assert_eq!(e, "TTS connection failed: busy"),
        _ => panic!("failed"),
    }
    assert!(agent.inject_tts_speech(s("x")).is_none());
    assert!(agent.cancellation_token().is_none());
    assert!(agent.begin_turn("x").is_none());
    assert!(matches!(agent.start(Some(Ok(())), Some(Ok(()))), StartStep::SpawnTasks));
    assert_eq!(agent.get_llm_system_prompt(), "Be kind.");
}

#[test]
fn events_are_injected_while_the_agent_runs() {
    let mut agent = started();
    assert_eq!(agent.inject_tts_speech(s("Hi")), Some(VoiceAgentEvent::TtsSpeech(s("Hi"))));
    assert_eq!(agent.inject_error(s("No")), Some(VoiceAgentEvent::Error(s("No"))));
    assert_eq!(agent.run(), Some(100));
    agent.set_stopping();
    assert!(agent.is_stopping());
    assert_eq!(agent.run(), None);

    let steps: Vec<String> = agent.shutdown().iter().map(|x| format!("{:?}", x)).collect();
    assert_eq!(
        steps,
        vec![
            "MarkSttFinal",
            "MarkTtsFinal",
            "ShutdownStt",
            "ShutdownTts",
            "Send(Shutdown)",
            "WaitForTasks",
        ]
    );
    assert!(agent.inject_error(s("No")).is_none());
    assert_eq!(agent.shutdown().len(), 5);
    let mut idle = VoiceAgent::new(config());
    let steps = idle.shutdown();
    assert_eq!(steps.len(), 1);
    assert!(matches!(steps[0], ShutdownStep::WaitForTasks));
}

#[test]
fn conversation_is_managed_through_the_agent() {
    let mut agent = started();
    let mut history = LlmHistory::new();
    history.set_system_prompt(s("You are a technical assistant."));
    history.add_message(Message::user("Previous context"));
    agent.set_llm_history(history);
    assert_eq!(agent.get_llm_history().len(), 2);
    assert_eq!(agent.get_llm_system_prompt(), "You are a technical assistant.");
    agent.set_llm_system_prompt(s("You are a friendly customer service agent."));
    assert_eq!(agent.get_llm_history()[0].content, "You are a friendly customer service agent.");
    agent.clear_llm_history();
    assert_eq!(agent.get_llm_history().len(), 1);
    assert_eq!(agent.get_llm_system_prompt(), DEFAULT_SYSTEM_PROMPT);
}

#[test]
fn agent_without_a_client_has_a_fresh_conversation() {
    let mut agent = VoiceAgent::new(config());
    agent.set_llm_system_prompt(s("x"));
    agent.set_llm_history(LlmHistory::new());
    agent.clear_llm_history();
    assert_eq!(agent.get_llm_system_prompt(), "");
    assert_eq!(agent.get_llm_history().len(), 1);
    assert_eq!(agent.get_llm_history().get_system_prompt(), DEFAULT_SYSTEM_PROMPT);
}

#[test]
fn turn_is_remembered() {
    let mut agent = started();
    agent.cancellation_token().unwrap().cancel();
    match agent.begin_turn("How are you?") {
        Some(StreamStart::Request { request, .. }) => {
            assert_eq!(request.model, "m");
            assert_eq!(request.messages.len(), 2);
            assert_eq!(request.messages[0].content, "Be kind.");
        }
        _ => panic!("asked"),
    }
    let mut turn = Turn::new();
    turn.on_chunk(LlmChunk::Delta(s("Fine, than")));
    turn.on_chunk(LlmChunk::Cancelled);
    agent.end_turn(&turn);
    let history = agent.get_llm_history();
    assert_eq!(history.len(), 3);
    assert_eq!(history[1].role, Role::User);
    assert_eq!(history[1].content, "How are you?");
    assert_eq!(history[2].role, Role::Assistant);
    assert_eq!(history[2].content, "Fine, than");
}

#[test]
fn outbox_keeps_the_order() {
    let mut outbox = Outbox::new();
    assert!(outbox.enqueue("a", 1));
    assert!(outbox.enqueue("b", 1));
    assert!(!outbox.enqueue("c", 1));
    assert_eq!(outbox.len(), 2);
    let first = outbox.pop().unwrap();
    assert_eq!(first, "a");
    outbox.put_back(first);
    assert_eq!(outbox.pop(), Some(s("a")));
    assert_eq!(outbox.pop(), Some(s("b")));
    assert_eq!(outbox.pop(), None);
    outbox.enqueue("d", 1);
    outbox.clear();
    assert_eq!(outbox.pop(), None);
}

#[test]
fn recognition_queues_audio_until_it_is_connected() {
    let mut stt = SttHandle::new(at_ms(0));
    assert_eq!(stt.next_event(), Err(SttHandleError::NotConnected));
    assert_eq!(stt.send_ping(), Err(SttHandleError::NotConnected));
    assert_eq!(stt.send_eos(), Err(SttHandleError::NotConnected));
    for i in 0..33 {
        assert_eq!(stt.process(&format!("{}", i)), Ok(()));
    }
    assert_eq!(stt.process("late"), Err(SttHandleError::AudioQueueFull));
    assert_eq!(stt.next_in_queue(), None);
    assert_eq!(stt.connect(Err(s("refused")), at_ms(1)), Err(s("refused")));
    assert_eq!(stt.next_in_queue(), None);
    assert_eq!(stt.connect(Ok(()), at_ms(2)), Ok(()));
    assert_eq!(stt.next_event(), Ok(()));

    let first = stt.next_in_queue().unwrap();
    assert_eq!(first, "0");
    assert!(!stt.on_sent(first, false));
    for i in 0..33 {
        let audio = stt.next_in_queue().unwrap();
        assert_eq!(audio, format!("{}", i));
        assert!(stt.on_sent(audio, true));
    }
    assert_eq!(stt.next_in_queue(), None);

    stt.on_event(at_ms(10));
    assert_eq!(stt.time_since_last_ping(at_ms(13)), 3_000_000);
    assert!(stt.reconnect());
    assert!(!stt.reconnect());
    stt.connect(Ok(()), at_ms(20)).unwrap();
    assert!(stt.shutdown());
    assert!(!stt.shutdown());
    assert!(!stt.is_final_shutdown());
    stt.set_final_shutdown();
    assert!(stt.is_final_shutdown());
    assert_eq!(SttHandleError::NotConnected.message(), "STT client not connected");
    assert_eq!(SttHandleError::AudioQueueFull.message(), "STT audio queue is full");
}

#[test]
fn synthesis_cancels_what_is_on_its_way() {
    let mut tts = TtsHandle::new(at_ms(0));
    assert_eq!(tts.next_event(), Err(TtsHandleError::NotConnected));
    assert_eq!(tts.send_ping(), Err(TtsHandleError::NotConnected));
    assert_eq!(tts.send_eos(), Err(TtsHandleError::NotConnected));
    tts.connect(Ok(()), at_ms(1)).unwrap();
    assert!(!tts.cancel());
    for i in 0..65 {
        assert_eq!(tts.process(&format!("{}", i)), Ok(()));
    }
    assert_eq!(tts.process("late"), Err(TtsHandleError::TextQueueFull));
    let text = tts.next_in_queue().unwrap();
    assert!(tts.on_sent(text, true));
    assert_eq!(tts.inflight_requests(), 1);
    let text = tts.next_in_queue().unwrap();
    assert!(!tts.on_sent(text, false));
    assert_eq!(tts.inflight_requests(), 1);

    assert!(tts.cancel());
    assert_eq!(tts.reconnect(), Ok(true));
    assert!(tts.is_reconnecting());
    assert_eq!(tts.next_event(), Err(TtsHandleError::NotConnected));
    tts.connect(Ok(()), at_ms(2)).unwrap();
    assert_eq!(tts.next_in_queue(), None);
    assert_eq!(tts.finish_reconnect(), Ok(()));
    assert!(!tts.is_reconnecting());
    assert_eq!(tts.inflight_requests(), 0);
    assert!(!tts.cancel());
}

#[test]
fn nothing_is_renewed_once_the_end_is_final() {
    let mut tts = TtsHandle::new(at_ms(0));
    tts.connect(Ok(()), at_ms(1)).unwrap();
    tts.set_reconnecting();
    assert!(tts.is_reconnecting());
    assert_eq!(tts.reconnect(), Ok(true));
    tts.connect(Ok(()), at_ms(2)).unwrap();
    tts.set_final_shutdown();
    assert_eq!(tts.finish_reconnect(), Err(TtsHandleError::FinalShutdown));
    assert!(!tts.is_reconnecting());
    assert_eq!(tts.reconnect(), Err(TtsHandleError::FinalShutdown));
    assert!(tts.is_final_shutdown());
    tts.on_event(at_ms(5));
    assert_eq!(tts.time_since_last_ping(at_ms(4)), 0);
    assert!(tts.shutdown());
    assert_eq!(TtsHandleError::NotConnected.message(), "TTS client not connected");
    assert_eq!(TtsHandleError::TextQueueFull.message(), "TTS text queue is full");
    assert_eq!(TtsHandleError::FinalShutdown.message(), "TTS final shutdown");
}

#[test]
fn sleep_is_made_of_naps() {
    let mut sleep = TtsHandle::sleep(350);
    let mut naps = 0;
    while let Some(ms) = sleep.next_nap_ms() {
        assert_eq!(ms, 100);
        assert_eq!(sleep.on_nap(false), Ok(()));
        naps += 1;
    }
    assert_eq!(naps, 3);
    assert_eq!(TtsHandle::sleep(99).next_nap_ms(), None);
    let mut sleep = TtsHandle::sleep(3000);
    assert_eq!(sleep.on_nap(true), Err(TtsHandleError::FinalShutdown));
}

#[test]
fn pause_needs_words_a_flush_and_inactivity() {
    let mut detector = PauseDetector::new();
    assert!(!detector.is_paused(at_ms(1000)));
    detector.add_text("", at_ms(0));
    detector.on_flush(at_ms(0));
    detector.add_inactivity_prob(prob(0.9));
    assert!(!detector.is_paused(at_ms(1000)));
    detector.add_text("hello", at_ms(100));
    assert!(!detector.is_paused(at_ms(399)));
    assert!(detector.is_paused(at_ms(400)));
    assert!(detector.is_paused(at_ms(4000)));
    detector.add_inactivity_prob(prob(0.7));
    assert!(!detector.is_in_high_inactivity());
    assert!(!detector.is_paused(at_ms(400)));
    detector.add_inactivity_prob(prob(0.71));
    assert!(detector.is_in_high_inactivity());
    detector.reset();
    assert!(!detector.is_paused(at_ms(4000)));
    assert!(!detector.is_in_high_inactivity());
}

#[test]
fn answer_is_spoken_whatever_parts_it_comes_in() {
    let text = "Well, hello there.  How are\nyou";
    for cut in 0..=text.len() {
        let mut main = MainLoop::new();
        main.on_event(VoiceAgentEvent::UserInput(s("Hi")));
        let mut said = Vec::new();
        let mut last = None;
        for event in turn_events(&[&text[..cut], &text[cut..]]) {
            for action in main.on_event(event) {
                match action {
                    Action::Speak(text) => {
                        assert_eq!(last, Some(text.clone()));
                        said.push(text);
                    }
                    Action::Notify(Notice::TtsSpeech(text)) => last = Some(text),
                    _ => {}
                }
            }
        }
        assert_eq!(said, vec!["Well, hello there.", "How are", "you"]);
    }
}

#[test]
fn injected_speech_is_spoken_in_order() {
    let agent = started();
    let mut main = MainLoop::new();
    let mut said = Vec::new();
    for text in ["Hello! I'm ready to help.", "What would you like to know?"] {
        let event = agent.inject_tts_speech(s(text)).unwrap();
        for action in main.on_event(event) {
            if let Action::Speak(text) = action {
                said.push(text);
            }
        }
    }
    assert_eq!(said, vec!["Hello! I'm ready to help.", "What would you like to know?"]);
}
