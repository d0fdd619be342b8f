//! Telephone conversations over Twilio media streams.

pub mod audio;
pub mod call_handler;
pub mod tasks;
pub mod twilio;
pub mod webhook;
