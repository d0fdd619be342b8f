//! Orchestration of a voice conversation: speech in, language model, speech out.

pub mod agent;
pub mod capture;
pub mod event;
pub mod gate;
pub mod handler;
pub mod listening;
pub mod main_loop;
pub mod sentences;
pub mod speaking;
pub mod spoken;
pub mod turn;

pub use agent::{Config, VoiceAgent};
pub use event::VoiceAgentEvent;
pub use handler::{VoiceAgentEventHandler, VoiceAgentNoOpEventHandler};
