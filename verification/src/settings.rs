//! The configuration that the environment gives.

use vstd::prelude::*;
use vstd::string::*;

use crate::llm::config::LlmConfig;
use crate::llm::endpoints;
use crate::views;
use crate::voice_agent::agent::Config;

verus! {

/// The model that is asked where no other is named.
pub const DEFAULT_MODEL: &'static str = "gpt-4o-mini";

/// What instructs the model in a spoken conversation.
pub const VOICE_PROMPT: &'static str = "You are a helpful voice assistant. Keep your responses concise and conversational.";

/// What instructs the model at the console.
pub const CONSOLE_PROMPT: &'static str = "You are a helpful assistant. Keep responses brief.";

/// The language that is recognized where no other is named.
pub const DEFAULT_LANGUAGE: &'static str = "en";

/// The address that is listened at where no other is named.
pub const DEFAULT_BIND_ADDR: &'static str = "127.0.0.1:8080";

/// The variables of the environment, as far as they are set.
pub struct Environment {
    /// `GRADIUM_API_KEY`
    pub gradium_api_key: Option<String>,
    /// `GRADIUM_STT_ENDPOINT`
    pub stt_endpoint: Option<String>,
    /// `GRADIUM_STT_LANGUAGE`
    pub stt_language: Option<String>,
    /// `GRADIUM_TTS_ENDPOINT`
    pub tts_endpoint: Option<String>,
    /// `GRADIUM_TTS_VOICE_ID`
    pub tts_voice_id: Option<String>,
    /// `OPENAI_API_KEY`
    pub openai_api_key: Option<String>,
    /// `LLM_API_KEY`
    pub llm_api_key: Option<String>,
    /// `OPENAI_MODEL`
    pub openai_model: Option<String>,
    /// `LLM_MODEL`
    pub llm_model: Option<String>,
    /// `LLM_ENDPOINT`
    pub llm_endpoint: Option<String>,
    /// `LLM_SYSTEM_PROMPT`
    pub llm_system_prompt: Option<String>,
    /// `BIND_ADDR`
    pub bind_addr: Option<String>,
}

/// What speech recognition and synthesis bring along for what the environment does not name.
pub struct SpeechDefaults {
    pub stt_endpoint: String,
    pub tts_endpoint: String,
    pub tts_voice_id: String,
}

/// The value of a variable, or what stands in for it.
pub open spec fn value_or(value: Option<String>, default: Seq<char>) -> Seq<char> {
    match value {
        Some(v) => v@,
        None => default,
    }
}

/// The value of the first of two variables that is set.
pub open spec fn first_of(first: Option<String>, second: Option<String>) -> Option<Seq<char>> {
    match first {
        Some(v) => Some(v@),
        None => views::opt(second),
    }
}

/// The value of the first of two variables that is set, or what stands in for it.
pub open spec fn first_or(first: Option<String>, second: Option<String>, default: Seq<char>) -> Seq<
    char,
> {
    match first_of(first, second) {
        Some(v) => v,
        None => default,
    }
}

fn or_default(value: &Option<String>, default: &str) -> (r: String)
    ensures
        r@ == value_or(*value, default@),
{
    match value {
        Some(v) => v.clone(),
        None => default.to_owned(),
    }
}

fn first_set(first: &Option<String>, second: &Option<String>) -> (r: Option<String>)
    ensures
        views::opt(r) == first_of(*first, *second),
{
    match first {
        Some(v) => Some(v.clone()),
        None => match second {
            Some(v) => Some(v.clone()),
            None => None,
        },
    }
}

impl Environment {
    /// The key that authorizes requests to the language model.
    pub open spec fn llm_key(&self) -> Option<Seq<char>> {
        first_of(self.openai_api_key, self.llm_api_key)
    }

    /// The name of the language model.
    pub open spec fn model(&self) -> Seq<char> {
        first_or(self.openai_model, self.llm_model, DEFAULT_MODEL@)
    }

    fn read_llm_key(&self) -> (r: Result<String, String>)
        ensures
            match r {
                Ok(key) => self.llm_key() == Some(key@),
                Err(e) => {
                    &&& self.llm_key() is None
                    &&& e@ == "OPENAI_API_KEY or LLM_API_KEY environment variable not set"@
                },
            },
    {
        match first_set(&self.openai_api_key, &self.llm_api_key) {
            Some(key) => Ok(key),
            None => Err("OPENAI_API_KEY or LLM_API_KEY environment variable not set".to_owned()),
        }
    }

    fn read_model(&self) -> (r: String)
        ensures
            r@ == self.model(),
    {
        match first_set(&self.openai_model, &self.llm_model) {
            Some(model) => model,
            None => DEFAULT_MODEL.to_owned(),
        }
    }

    /// The configuration of a voice agent. Two keys must be given; all else has a default.
    pub fn voice_config(&self, defaults: &SpeechDefaults) -> (r: Result<Config, String>)
        ensures
            match r {
                Ok(config) => {
                    &&& self.gradium_api_key is Some
                    &&& config.stt_api_key@ == self.gradium_api_key->0@
                    &&& config.tts_api_key@ == self.gradium_api_key->0@
                    &&& config.stt_endpoint@ == value_or(self.stt_endpoint, defaults.stt_endpoint@)
                    &&& config.stt_language@ == value_or(self.stt_language, DEFAULT_LANGUAGE@)
                    &&& config.tts_endpoint@ == value_or(self.tts_endpoint, defaults.tts_endpoint@)
                    &&& config.tts_voice_id@ == value_or(self.tts_voice_id, defaults.tts_voice_id@)
                    &&& self.llm_key() == Some(config.llm_api_key@)
                    &&& config.llm_model@ == self.model()
                    &&& config.llm_endpoint@ == value_or(self.llm_endpoint, endpoints::OPENAI@)
                    &&& config.llm_system_prompt@ == value_or(
                        self.llm_system_prompt,
                        VOICE_PROMPT@,
                    )
                },
                Err(e) => if self.gradium_api_key is None {
                    e@ == "GRADIUM_API_KEY environment variable not set"@
                } else {
                    &&& self.llm_key() is None
                    &&& e@ == "OPENAI_API_KEY or LLM_API_KEY environment variable not set"@
                },
            },
    {
        let gradium_api_key = match &self.gradium_api_key {
            Some(key) => key.clone(),
            None => {
                return Err("GRADIUM_API_KEY environment variable not set".to_owned());
            },
        };
        let llm_api_key = match self.read_llm_key() {
            Ok(key) => key,
            Err(e) => {
                return Err(e);
            },
        };
        Ok(
            Config {
                stt_api_key: gradium_api_key.clone(),
                stt_endpoint: or_default(&self.stt_endpoint, defaults.stt_endpoint.as_str()),
                stt_language: or_default(&self.stt_language, DEFAULT_LANGUAGE),
                tts_api_key: gradium_api_key,
                tts_endpoint: or_default(&self.tts_endpoint, defaults.tts_endpoint.as_str()),
                tts_voice_id: or_default(&self.tts_voice_id, defaults.tts_voice_id.as_str()),
                llm_api_key,
                llm_model: self.read_model(),
                llm_endpoint: or_default(&self.llm_endpoint, endpoints::OPENAI),
                llm_system_prompt: or_default(&self.llm_system_prompt, VOICE_PROMPT),
            },
        )
    }

    /// The access to the language model at the console. A key must be given; all else has a
    /// default.
    pub fn console_config(&self) -> (r: Result<LlmConfig, String>)
        ensures
            match r {
                Ok(config) => {
                    &&& self.llm_key() == Some(config.api_key@)
                    &&& config.model@ == self.model()
                    &&& config.endpoint@ == value_or(self.llm_endpoint, endpoints::OPENAI@)
                    &&& config.system_prompt is Some
                    &&& config.system_prompt->0@ == value_or(
                        self.llm_system_prompt,
                        CONSOLE_PROMPT@,
                    )
                    &&& config.temperature is None
                    &&& config.max_tokens is None
                },
                Err(e) => {
                    &&& self.llm_key() is None
                    &&& e@ == "OPENAI_API_KEY or LLM_API_KEY environment variable not set"@
                },
            },
    {
        let api_key = match self.read_llm_key() {
            Ok(key) => key,
            Err(e) => {
                return Err(e);
            },
        };
        let prompt = or_default(&self.llm_system_prompt, CONSOLE_PROMPT);
        Ok(
            LlmConfig::new(
                or_default(&self.llm_endpoint, endpoints::OPENAI),
                api_key,
                self.read_model(),
            ).with_system_prompt(&prompt),
        )
    }

    /// The address to listen at.
    pub fn listen_addr(&self) -> (r: String)
        ensures
            r@ == value_or(self.bind_addr, DEFAULT_BIND_ADDR@),
    {
        or_default(&self.bind_addr, DEFAULT_BIND_ADDR)
    }
}

/// Whatever the environment names is used as it is, for what it is named for.
pub proof fn law_environment_is_heeded(
    e: &Environment,
    defaults: &SpeechDefaults,
    r: Result<Config, String>,
)
    requires
        call_ensures(Environment::voice_config, (e, defaults), r),
    ensures
        r is Ok <==> e.gradium_api_key is Some && (e.openai_api_key is Some || e.llm_api_key is Some),
        r matches Ok(config) ==> {
            &&& e.gradium_api_key matches Some(key) ==> config.stt_api_key@ == key@
                && config.tts_api_key@ == key@
            &&& e.openai_api_key matches Some(key) ==> config.llm_api_key@ == key@
            &&& e.openai_api_key is None ==> (e.llm_api_key matches Some(key)
                ==> config.llm_api_key@ == key@)
            &&& e.stt_endpoint matches Some(v) ==> config.stt_endpoint@ == v@
            &&& e.stt_language matches Some(v) ==> config.stt_language@ == v@
            &&& e.tts_endpoint matches Some(v) ==> config.tts_endpoint@ == v@
            &&& e.tts_voice_id matches Some(v) ==> config.tts_voice_id@ == v@
            &&& e.openai_model matches Some(v) ==> config.llm_model@ == v@
            &&& e.openai_model is None ==> (e.llm_model matches Some(v) ==> config.llm_model@ == v@)
            &&& e.llm_endpoint matches Some(v) ==> config.llm_endpoint@ == v@
            &&& e.llm_system_prompt matches Some(v) ==> config.llm_system_prompt@ == v@
        },
{
}

/// Whatever the environment does not name has a default.
pub proof fn law_defaults_stand_in(
    e: &Environment,
    defaults: &SpeechDefaults,
    r: Result<Config, String>,
)
    requires
        call_ensures(Environment::voice_config, (e, defaults), r),
    ensures
        r matches Ok(config) ==> {
            &&& e.stt_endpoint is None ==> config.stt_endpoint@ == defaults.stt_endpoint@
            &&& e.stt_language is None ==> config.stt_language@ == "en"@
            &&& e.tts_endpoint is None ==> config.tts_endpoint@ == defaults.tts_endpoint@
            &&& e.tts_voice_id is None ==> config.tts_voice_id@ == defaults.tts_voice_id@
            &&& e.openai_model is None && e.llm_model is None ==> config.llm_model@
                == "gpt-4o-mini"@
            &&& e.llm_endpoint is None ==> config.llm_endpoint@ == endpoints::OPENAI@
            &&& e.llm_system_prompt is None ==> config.llm_system_prompt@ == VOICE_PROMPT@
        },
{
}

/// The console and the servers read the same variables in the same way.
pub proof fn law_console_reads_the_same(
    e: &Environment,
    defaults: &SpeechDefaults,
    r: Result<LlmConfig, String>,
    s: Result<Config, String>,
    addr: String,
)
    requires
        call_ensures(Environment::console_config, (e,), r),
        call_ensures(Environment::voice_config, (e, defaults), s),
        call_ensures(Environment::listen_addr, (e,), addr),
    ensures
        r is Ok <==> e.openai_api_key is Some || e.llm_api_key is Some,
        r is Ok && s is Ok ==> {
            &&& r->Ok_0.api_key@ == s->Ok_0.llm_api_key@
            &&& r->Ok_0.model@ == s->Ok_0.llm_model@
            &&& r->Ok_0.endpoint@ == s->Ok_0.llm_endpoint@
        },
        r matches Ok(config) ==> (e.llm_system_prompt matches Some(v) ==> config.system_prompt is Some
            && config.system_prompt->0@ == v@),
        r matches Ok(config) ==> (e.llm_system_prompt is None ==> config.system_prompt is Some
            && config.system_prompt->0@ == CONSOLE_PROMPT@),
        e.bind_addr matches Some(v) ==> addr@ == v@,
        e.bind_addr is None ==> addr@ == "127.0.0.1:8080"@,
{
}

} // verus!
