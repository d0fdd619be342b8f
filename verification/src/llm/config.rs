//! Configuration of the access to a language model.

use vstd::prelude::*;
use vstd::string::*;

use crate::ieee754::F32Bits;
use crate::llm::endpoints;
use crate::llm::message::IntoText;

verus! {

/// How to reach a language model, and how it is to answer.
#[derive(Debug)]
pub struct LlmConfig {
    /// The address that requests are posted to.
    pub endpoint: String,
    /// The key that authorizes requests.
    pub api_key: String,
    /// The name of the model.
    pub model: String,
    /// What instructs the model, where it is not the default.
    pub system_prompt: Option<String>,
    /// The temperature of the answers.
    pub temperature: Option<F32Bits>,
    /// The greatest number of tokens in an answer.
    pub max_tokens: Option<u32>,
}

impl Clone for LlmConfig {
    fn clone(&self) -> (r: Self)
        ensures
            r == *self,
    {
        LlmConfig {
            endpoint: self.endpoint.clone(),
            api_key: self.api_key.clone(),
            model: self.model.clone(),
            system_prompt: match &self.system_prompt {
                Some(prompt) => Some(prompt.clone()),
                None => None,
            },
            temperature: self.temperature,
            max_tokens: self.max_tokens,
        }
    }
}

impl LlmConfig {
    /// Access to a model, with nothing said about how it is to answer.
    pub fn new(endpoint: String, api_key: String, model: String) -> (r: Self)
        ensures
            r == (LlmConfig {
                endpoint,
                api_key,
                model,
                system_prompt: None,
                temperature: None,
                max_tokens: None,
            }),
    {
        LlmConfig {
            endpoint,
            api_key,
            model,
            system_prompt: None,
            temperature: None,
            max_tokens: None,
        }
    }

    /// Access to a model of OpenAI.
    pub fn openai(api_key: String, model: String) -> (r: Self)
        ensures
            r.endpoint@ == endpoints::OPENAI@,
            r == (LlmConfig {
                endpoint: r.endpoint,
                api_key,
                model,
                system_prompt: None,
                temperature: None,
                max_tokens: None,
            }),
    {
        LlmConfig::new(endpoints::OPENAI.to_owned(), api_key, model)
    }

    /// Access to a model of Groq.
    pub fn groq(api_key: String, model: String) -> (r: Self)
        ensures
            r.endpoint@ == endpoints::GROQ@,
            r == (LlmConfig {
                endpoint: r.endpoint,
                api_key,
                model,
                system_prompt: None,
                temperature: None,
                max_tokens: None,
            }),
    {
        LlmConfig::new(endpoints::GROQ.to_owned(), api_key, model)
    }

    /// The same access, with another system prompt.
    pub fn with_system_prompt<T: IntoText>(self, prompt: T) -> (r: Self)
        ensures
            r.system_prompt is Some,
            r.system_prompt->0@ == prompt.text(),
            r == (LlmConfig { system_prompt: r.system_prompt, ..self }),
    {
        LlmConfig { system_prompt: Some(prompt.into_text()), ..self }
    }

    /// The same access, with another temperature.
    pub fn with_temperature(self, temp: F32Bits) -> (r: Self)
        ensures
            r == (LlmConfig { temperature: Some(temp), ..self }),
    {
        LlmConfig { temperature: Some(temp), ..self }
    }

    /// The same access, with another limit on the length of an answer.
    pub fn with_max_tokens(self, tokens: u32) -> (r: Self)
        ensures
            r == (LlmConfig { max_tokens: Some(tokens), ..self }),
    {
        LlmConfig { max_tokens: Some(tokens), ..self }
    }

    /// The value of the header that authorizes a request.
    pub fn authorization(&self) -> (r: String)
        ensures
            r@ == "Bearer "@ + self.api_key@,
    {
        let mut r = "Bearer ".to_owned();
        r.append(self.api_key.as_str());
        r
    }
}

/// What is configured is kept as it was given, and each setting changes itself alone. The key is
/// sent behind the word that says what it is.
pub proof fn law_configuration_is_kept(
    endpoint: String,
    api_key: String,
    model: String,
    c: LlmConfig,
    prompt: &str,
    with_prompt: LlmConfig,
    temp: F32Bits,
    with_temp: LlmConfig,
    tokens: u32,
    with_tokens: LlmConfig,
    all: &LlmConfig,
    header: String,
)
    requires
        call_ensures(LlmConfig::new, (endpoint, api_key, model), c),
        call_ensures(LlmConfig::with_system_prompt::<&str>, (c, prompt), with_prompt),
        call_ensures(LlmConfig::with_temperature, (with_prompt, temp), with_temp),
        call_ensures(LlmConfig::with_max_tokens, (with_temp, tokens), with_tokens),
        *all == with_tokens,
        call_ensures(LlmConfig::authorization, (all,), header),
    ensures
        c.system_prompt is None && c.temperature is None && c.max_tokens is None,
        all.endpoint@ == endpoint@,
        all.api_key@ == api_key@,
        all.model@ == model@,
        all.system_prompt matches Some(p) && p@ == prompt@,
        all.temperature == Some(temp),
        all.max_tokens == Some(tokens),
        header@ == "Bearer "@ + api_key@,
{
}

/// Models of the two providers are reached at their addresses, with the given key and name.
pub proof fn law_providers_are_reached(
    api_key: String,
    model: String,
    openai: LlmConfig,
    groq: LlmConfig,
)
    requires
        call_ensures(LlmConfig::openai, (api_key, model), openai),
        call_ensures(LlmConfig::groq, (api_key, model), groq),
    ensures
        openai.endpoint@ == "https://api.openai.com/v1/chat/completions"@,
        groq.endpoint@ == "https://api.groq.com/openai/v1/chat/completions"@,
        openai.api_key@ == api_key@ && openai.model@ == model@,
        groq.api_key@ == api_key@ && groq.model@ == model@,
        openai.system_prompt is None && openai.temperature is None && openai.max_tokens is None,
        groq.system_prompt is None && groq.temperature is None && groq.max_tokens is None,
{
}

} // verus!
