//! Chat completion endpoints of different providers.

use vstd::prelude::*;

verus! {

pub const OPENAI: &'static str = "https://api.openai.com/v1/chat/completions";

pub const GROQ: &'static str = "https://api.groq.com/openai/v1/chat/completions";

} // verus!
