//! The conversation with a language model.

pub mod answer;
pub mod body;
pub mod client;
pub mod config;
pub mod endpoints;
pub mod history;
pub mod message;
pub mod retry;
pub mod stream;
pub mod token;

pub use client::LlmClient;
pub use config::LlmConfig;
pub use history::LlmHistory;
pub use message::{IntoText, Message, Role};
pub use stream::LlmChunk;
pub use token::CancellationToken;
