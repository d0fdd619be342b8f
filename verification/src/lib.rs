//! The decision logic of a real-time voice assistant.

pub mod arithmetic;
pub mod clock;
pub mod downsampler;
pub mod encoding;
pub mod framing;
pub mod ieee754;
pub mod llm;
pub mod messages;
pub mod outbox;
pub mod pause_detector;
pub mod pcm;
pub mod pcm_capture;
pub mod pcm_playback;
pub mod settings;
pub mod stt_handle;
pub mod text;
pub mod tts_handle;
pub mod twilio;
pub mod ulaw;
pub mod views;
pub mod voice_agent;
pub mod ws;
