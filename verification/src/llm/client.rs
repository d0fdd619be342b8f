//! The client of a language model: its configuration and the conversation so far.

use vstd::prelude::*;
use vstd::string::*;

use crate::ieee754::F32Bits;
use crate::llm::answer::{AnswerStream, AnswerView};
use crate::llm::config::LlmConfig;
use crate::llm::history;
use crate::llm::history::{HistoryView, LlmHistory, DEFAULT_SYSTEM_PROMPT};
use crate::llm::message::{Message, MessageView, Role};
use crate::llm::stream::{CollectStep, CollectStepView, CollectorView};
use crate::llm::token::CancellationToken;
use crate::views;

verus! {

/// The body of a request.
#[derive(Debug)]
pub struct ChatRequest {
    pub model: String,
    pub messages: Vec<Message>,
    pub stream: bool,
    pub temperature: Option<F32Bits>,
    pub max_completion_tokens: Option<u32>,
}

/// The mathematical counterpart of a [`ChatRequest`].
pub struct RequestView {
    pub model: Seq<char>,
    pub messages: Seq<MessageView>,
    pub stream: bool,
    pub temperature: Option<F32Bits>,
    pub max_completion_tokens: Option<u32>,
}

impl View for ChatRequest {
    type V = RequestView;

    open spec fn view(&self) -> RequestView {
        RequestView {
            model: self.model@,
            messages: views::of(self.messages@),
            stream: self.stream,
            temperature: self.temperature,
            max_completion_tokens: self.max_completion_tokens,
        }
    }
}

/// The message of an answer that was not streamed.
#[derive(Debug)]
pub struct ResponseMessage {
    pub content: String,
}

/// One choice of an answer that was not streamed.
#[derive(Debug)]
pub struct ResponseChoice {
    pub message: ResponseMessage,
}

/// An answer that was not streamed.
#[derive(Debug)]
pub struct ChatResponse {
    pub choices: Vec<ResponseChoice>,
}

impl ChatResponse {
    /// The text of the answer: that of its first choice, or none.
    pub open spec fn text(&self) -> Seq<char> {
        if self.choices@.len() == 0 {
            seq![]
        } else {
            self.choices@[0].message.content@
        }
    }
}

/// How a streamed answer begins.
pub enum StreamStart {
    /// The request was cancelled before it was sent; the answer is nothing but that.
    Cancelled,
    /// Send the request, and read the answer from the connection.
    Request { request: ChatRequest, answer: AnswerStream },
}

/// The mathematical counterpart of an [`LlmClient`].
pub struct ClientView {
    pub config: LlmConfig,
    pub history: HistoryView,
}

/// The message of the user that holds `text`.
pub open spec fn user_message(text: Seq<char>) -> MessageView {
    MessageView { role: Role::User, content: text }
}

/// The message of the model that holds `text`.
pub open spec fn assistant_message(text: Seq<char>) -> MessageView {
    MessageView { role: Role::Assistant, content: text }
}

/// The history of a conversation that has not begun, under the configured prompt or the default.
pub open spec fn initial_history(config: LlmConfig) -> HistoryView {
    match config.system_prompt {
        Some(prompt) => HistoryView::fresh(DEFAULT_SYSTEM_PROMPT@).with_prompt(prompt@),
        None => HistoryView::fresh(DEFAULT_SYSTEM_PROMPT@),
    }
}

/// A conversation that has not begun holds one message, which carries the prompt.
pub proof fn law_initial_history_holds_the_prompt(config: LlmConfig)
    ensures
        initial_history(config).messages.len() == 1,
        initial_history(config).begins_with_prompt(),
        initial_history(config).system_prompt == match config.system_prompt {
            Some(prompt) => prompt@,
            None => DEFAULT_SYSTEM_PROMPT@,
        },
{
}

impl ClientView {
    /// The client with one more message in its conversation.
    pub open spec fn with_message(self, message: MessageView) -> ClientView {
        ClientView { history: self.history.with_message(message), ..self }
    }

    /// The request that carries the conversation as it stands.
    pub open spec fn request(self, stream: bool) -> RequestView {
        RequestView {
            model: self.config.model@,
            messages: self.history.messages,
            stream,
            temperature: self.config.temperature,
            max_completion_tokens: self.config.max_tokens,
        }
    }

    /// Whether `start` is how a streamed answer to `text` begins, and `after` the client then.
    pub open spec fn starts(
        self,
        text: Seq<char>,
        cancelled: bool,
        collector: CollectorView,
        start: StreamStart,
        after: ClientView,
    ) -> bool {
        match start {
            StreamStart::Cancelled => cancelled && after == self,
            StreamStart::Request { request, answer } => {
                &&& !cancelled
                &&& after == self.with_message(user_message(text))
                &&& request@ == after.request(true)
                &&& answer@ == AnswerView::fresh(collector)
            },
        }
    }
}

/// What the flag said decides how a streamed answer begins: a cancelled one is nothing but that,
/// and leaves the client as it was; any other is asked for.
pub proof fn law_flag_decides_the_start(
    client: ClientView,
    text: Seq<char>,
    cancelled: bool,
    collector: CollectorView,
    start: StreamStart,
    after: ClientView,
)
    requires
        client.starts(text, cancelled, collector, start, after),
    ensures
        start is Cancelled <==> cancelled,
        cancelled ==> after == client,
        !cancelled ==> after.history.messages == client.history.messages.push(user_message(text)),
{
}

/// A request carries the system prompt first and what the user said last, and between them the
/// conversation so far.
pub proof fn law_request_carries_the_conversation(client: ClientView, text: Seq<char>, stream: bool)
    requires
        client.history.begins_with_prompt(),
    ensures
        ({
            let messages = client.with_message(user_message(text)).request(stream).messages;
            &&& messages[0] == history::prompt_message(client.history.system_prompt)
            &&& messages.last() == user_message(text)
            &&& messages.drop_last() == client.history.messages
        }),
{
    let messages = client.with_message(user_message(text)).request(stream).messages;
    assert(messages.drop_last() =~= client.history.messages);
}

/// The client of a language model.
pub struct LlmClient {
    config: LlmConfig,
    history: LlmHistory,
    cancel_token: CancellationToken,
}

impl View for LlmClient {
    type V = ClientView;

    closed spec fn view(&self) -> ClientView {
        ClientView { config: self.config, history: self.history@ }
    }
}

impl LlmClient {
    /// The flag that cancels the requests of the client.
    pub closed spec fn token(&self) -> CancellationToken {
        self.cancel_token
    }

    /// A client whose conversation has not begun.
    pub fn new(config: LlmConfig) -> (r: Self)
        ensures
            r@.config == config,
            r@.history == initial_history(config),
            r.token().made_of(false),
    {
        let mut history = LlmHistory::new();
        if let Some(prompt) = &config.system_prompt {
            history.set_system_prompt(prompt.clone());
        }
        LlmClient { config, history, cancel_token: CancellationToken::new() }
    }

    /// The configuration.
    pub fn config(&self) -> (r: &LlmConfig)
        ensures
            *r == self@.config,
    {
        &self.config
    }

    /// Cancels the requests of the client.
    pub fn cancel(&self)
        ensures
            self.token().writes(true),
    {
        self.cancel_token.cancel();
    }

    /// Lets the client make requests again.
    pub fn reset_cancel(&self)
        ensures
            self.token().writes(false),
    {
        self.cancel_token.reset();
    }

    /// Whether the requests of the client are cancelled.
    pub fn is_cancelled(&self) -> (r: bool)
        ensures
            self.token().reads(r),
    {
        self.cancel_token.is_cancelled()
    }

    /// Another holder of the flag that cancels the requests of the client.
    pub fn cancellation_token(&self) -> (r: CancellationToken)
        ensures
            r == self.token(),
    {
        self.cancel_token.clone()
    }

    /// The conversation so far.
    pub fn history(&self) -> (r: LlmHistory)
        ensures
            r@ == self@.history,
    {
        self.history.clone()
    }

    /// Drops the conversation, but keeps the configured prompt.
    pub fn clear_history(&mut self)
        ensures
            final(self)@ == (ClientView {
                history: initial_history(old(self)@.config),
                ..old(self)@
            }),
            final(self).token() == old(self).token(),
    {
        self.history.clear();
        if let Some(prompt) = &self.config.system_prompt {
            self.history.set_system_prompt(prompt.clone());
        }
    }

    /// Puts another conversation in place.
    pub fn set_history(&mut self, history: LlmHistory)
        ensures
            final(self)@ == (ClientView { history: history@, ..old(self)@ }),
            final(self).token() == old(self).token(),
    {
        self.history = history;
    }

    /// Adds a message to the conversation.
    pub fn add_message(&mut self, message: Message)
        ensures
            final(self)@ == old(self)@.with_message(message@),
            final(self).token() == old(self).token(),
    {
        self.history.add_message(message);
    }

    /// Changes the prompt that instructs the model.
    pub fn set_system_prompt(&mut self, prompt: String)
        ensures
            final(self)@ == (ClientView {
                history: old(self)@.history.with_prompt(prompt@),
                ..old(self)@
            }),
            final(self).token() == old(self).token(),
    {
        self.history.set_system_prompt(prompt);
    }

    /// The prompt that instructs the model.
    pub fn get_system_prompt(&self) -> (r: String)
        ensures
            r@ == self@.history.system_prompt,
    {
        self.history.get_system_prompt()
    }

    fn request(&self, stream: bool) -> (r: ChatRequest)
        ensures
            r@ == self@.request(stream),
    {
        ChatRequest {
            model: self.config.model.clone(),
            messages: self.history.get_messages(),
            stream,
            temperature: self.config.temperature,
            max_completion_tokens: self.config.max_tokens,
        }
    }

    /// Begins an exchange whose answer is not streamed: adds what the user said to the
    /// conversation, and makes the request.
    pub fn chat(&mut self, user_message: &str) -> (r: ChatRequest)
        ensures
            final(self)@ == old(self)@.with_message(self::user_message(user_message@)),
            final(self).token() == old(self).token(),
            r@ == final(self)@.request(false),
    {
        self.add_message(Message::user(user_message));
        self.request(false)
    }

    /// Ends an exchange whose answer is not streamed: adds the answer to the conversation, and
    /// hands its text out.
    pub fn finish_chat(&mut self, response: &ChatResponse) -> (r: String)
        ensures
            r@ == response.text(),
            final(self)@ == old(self)@.with_message(assistant_message(response.text())),
            final(self).token() == old(self).token(),
    {
        let content = if response.choices.len() > 0 {
            response.choices[0].message.content.clone()
        } else {
            String::new()
        };
        assert(content@ =~= response.text());
        self.add_message(Message::assistant(&content));
        content
    }

    /// Begins an exchange whose answer is streamed, under the client's own flag.
    pub fn chat_stream(&mut self, user_message: &str) -> (r: StreamStart)
        ensures
            exists|cancelled: bool|
                old(self).token().reads(cancelled) && #[trigger] old(self)@.starts(
                    user_message@,
                    cancelled,
                    CollectorView::silent(),
                    r,
                    final(self)@,
                ),
            final(self).token() == old(self).token(),
    {
        let token = self.cancel_token.clone();
        self.chat_stream_with_token(user_message, token)
    }

    /// Begins an exchange whose answer is streamed, under the given flag.
    pub fn chat_stream_with_token(&mut self, user_message: &str, cancel_token: CancellationToken)
        -> (r: StreamStart)
        ensures
            exists|cancelled: bool|
                cancel_token.reads(cancelled) && #[trigger] old(self)@.starts(
                    user_message@,
                    cancelled,
                    CollectorView::silent(),
                    r,
                    final(self)@,
                ),
            final(self).token() == old(self).token(),
    {
        let cancelled: bool = cancel_token.is_cancelled();
        self.start_stream(user_message, cancelled, false)
    }

    /// Begins an exchange whose answer is streamed and reported in full at its end, under the
    /// client's own flag. When the answer is reported it becomes a part of the conversation.
    pub fn chat_stream_with_history(&mut self, user_message: &str) -> (r: StreamStart)
        ensures
            exists|cancelled: bool|
                old(self).token().reads(cancelled) && #[trigger] old(self)@.starts(
                    user_message@,
                    cancelled,
                    CollectorView::fresh(),
                    r,
                    final(self)@,
                ),
            final(self).token() == old(self).token(),
    {
        let token = self.cancel_token.clone();
        self.chat_stream_with_history_and_token(user_message, token)
    }

    /// Begins an exchange whose answer is streamed and reported in full at its end, under the
    /// given flag.
    pub fn chat_stream_with_history_and_token(
        &mut self,
        user_message: &str,
        cancel_token: CancellationToken,
    ) -> (r: StreamStart)
        ensures
            exists|cancelled: bool|
                cancel_token.reads(cancelled) && #[trigger] old(self)@.starts(
                    user_message@,
                    cancelled,
                    CollectorView::fresh(),
                    r,
                    final(self)@,
                ),
            final(self).token() == old(self).token(),
    {
        let cancelled: bool = cancel_token.is_cancelled();
        self.start_stream(user_message, cancelled, true)
    }

    /// Begins an exchange whose answer is streamed: `cancelled` is what the flag said, `report`
    /// whether the full answer is waited for.
    pub fn start_stream(&mut self, user_message: &str, cancelled: bool, report: bool) -> (r:
        StreamStart)
        ensures
            old(self)@.starts(
                user_message@,
                cancelled,
                if report {
                    CollectorView::fresh()
                } else {
                    CollectorView::silent()
                },
                r,
                final(self)@,
            ),
            final(self).token() == old(self).token(),
    {
        if cancelled {
            return StreamStart::Cancelled;
        }
        self.add_message(Message::user(user_message));
        let request = self.request(true);
        let answer = if report {
            AnswerStream::with_report()
        } else {
            AnswerStream::new()
        };
        StreamStart::Request { request, answer }
    }

    /// Takes in a step of an answer that is reported in full: the report becomes a part of the
    /// conversation.
    pub fn remember_report(&mut self, step: &CollectStep)
        ensures
            final(self)@ == match step@ {
                CollectStepView::Report(text) => old(self)@.with_message(assistant_message(text)),
                CollectStepView::Yield(_) => old(self)@,
            },
            final(self).token() == old(self).token(),
    {
        if let CollectStep::Report(text) = step {
            self.add_message(Message::assistant(text));
        }
    }

    /// Adds the model's answer to the conversation, once a streamed answer is complete.
    pub fn add_assistant_response(&mut self, content: &str)
        ensures
            final(self)@ == old(self)@.with_message(assistant_message(content@)),
            final(self).token() == old(self).token(),
    {
        self.add_message(Message::assistant(content));
    }
}

/// A streamed answer is asked for with the whole conversation: all that was said before, in order,
/// and what the user says now, last and as it is; with the configured model and limits. The
/// conversation then holds the same.
pub proof fn law_stream_asks_with_the_conversation(
    c: &mut LlmClient,
    text: &str,
    cancelled: bool,
    report: bool,
    r: StreamStart,
)
    requires
        call_ensures(LlmClient::start_stream, (c, text, cancelled, report), r),
    ensures
        cancelled ==> r is Cancelled && final(c)@ == old(c)@,
        !cancelled ==> (r matches StreamStart::Request { request, answer } && {
            &&& views::of(request.messages@) == old(c)@.history.messages.push(
                MessageView { role: Role::User, content: text@ },
            )
            &&& request.model@ == old(c)@.config.model@
            &&& request.stream
            &&& request.temperature == old(c)@.config.temperature
            &&& request.max_completion_tokens == old(c)@.config.max_tokens
            &&& final(c)@.history.messages == views::of(request.messages@)
            &&& final(c)@.config == old(c)@.config
            &&& answer@.buffer.len() == 0
            &&& answer@.collector.full.len() == 0
            &&& answer@.collector.reported == !report
            &&& !answer@.ended
        }),
{
}

/// An answer that is not streamed is asked for with the whole conversation too, and what comes back
/// is handed out and remembered as it is, behind what the user said.
pub proof fn law_chat_is_remembered(
    c: &mut LlmClient,
    text: &str,
    request: ChatRequest,
    d: &mut LlmClient,
    response: &ChatResponse,
    r: String,
)
    requires
        call_ensures(LlmClient::chat, (c, text), request),
        call_ensures(LlmClient::finish_chat, (d, response), r),
        *old(d) == *final(c),
    ensures
        views::of(request.messages@) == old(c)@.history.messages.push(
            MessageView { role: Role::User, content: text@ },
        ),
        request.model@ == old(c)@.config.model@,
        !request.stream,
        request.temperature == old(c)@.config.temperature,
        request.max_completion_tokens == old(c)@.config.max_tokens,
        response.choices@.len() > 0 ==> r@ == response.choices@[0].message.content@,
        response.choices@.len() == 0 ==> r@.len() == 0,
        final(d)@.history.messages == old(c)@.history.messages + seq![
            MessageView { role: Role::User, content: text@ },
            MessageView { role: Role::Assistant, content: r@ },
        ],
        final(d)@.config == old(c)@.config,
{
    assert(final(d)@.history.messages =~= old(c)@.history.messages + seq![
        MessageView { role: Role::User, content: text@ },
        MessageView { role: Role::Assistant, content: r@ },
    ]);
}

/// What is reported of a streamed answer is remembered as the model's, as it is; a piece of the
/// answer alone is not. What is added by hand is remembered in the same way.
pub proof fn law_reports_are_remembered(
    c: &mut LlmClient,
    step: &CollectStep,
    d: &mut LlmClient,
    content: &str,
)
    requires
        call_ensures(LlmClient::remember_report, (c, step), ()),
        call_ensures(LlmClient::add_assistant_response, (d, content), ()),
    ensures
        step matches CollectStep::Report(text) ==> final(c)@.history.messages
            == old(c)@.history.messages.push(MessageView { role: Role::Assistant, content: text@ }),
        step is Yield ==> final(c)@ == old(c)@,
        final(d)@.history.messages == old(d)@.history.messages.push(
            MessageView { role: Role::Assistant, content: content@ },
        ),
{
}

/// A client begins, and begins anew, with one message: the configured prompt, or the default one.
pub proof fn law_conversation_begins_with_the_prompt(
    config: LlmConfig,
    c: LlmClient,
    d: &mut LlmClient,
)
    requires
        call_ensures(LlmClient::new, (config,), c),
        call_ensures(LlmClient::clear_history, (d,), ()),
    ensures
        c@.config == config,
        c@.history.messages == seq![
            MessageView {
                role: Role::System,
                content: match config.system_prompt {
                    Some(prompt) => prompt@,
                    None => DEFAULT_SYSTEM_PROMPT@,
                },
            },
        ],
        final(d)@.config == old(d)@.config,
        final(d)@.config == config ==> final(d)@.history == c@.history,
{
    assert(c@.history.messages =~= seq![
        MessageView {
            role: Role::System,
            content: match config.system_prompt {
                Some(prompt) => prompt@,
                None => DEFAULT_SYSTEM_PROMPT@,
            },
        },
    ]);
}

/// The conversation is read back as it was put in place, messages are added behind it, and another
/// prompt takes the place of the first.
pub proof fn law_client_keeps_its_conversation(
    a: &mut LlmClient,
    history: LlmHistory,
    b: &mut LlmClient,
    message: Message,
    d: &mut LlmClient,
    prompt: String,
    w: &LlmClient,
    read: LlmHistory,
    read_prompt: String,
    config: &LlmConfig,
)
    requires
        call_ensures(LlmClient::set_history, (a, history), ()),
        call_ensures(LlmClient::add_message, (b, message), ()),
        call_ensures(LlmClient::set_system_prompt, (d, prompt), ()),
        call_ensures(LlmClient::history, (w,), read),
        call_ensures(LlmClient::get_system_prompt, (w,), read_prompt),
        call_ensures(LlmClient::config, (w,), config),
    ensures
        final(a)@.history == history@,
        final(a)@.config == old(a)@.config,
        final(b)@.history.messages == old(b)@.history.messages.push(
            MessageView { role: message.role, content: message.content@ },
        ),
        final(d)@.history.system_prompt == prompt@,
        final(d)@.history.messages.len() > 0,
        final(d)@.history.messages[0] == (MessageView { role: Role::System, content: prompt@ }),
        read@ == w@.history,
        read_prompt@ == w@.history.system_prompt,
        *config == w@.config,
{
}

/// Whether `start` asks with the whole conversation of `before` and `text` behind it, which `after`
/// then holds; `waited` tells whether somebody waits for the full answer.
pub open spec fn asks_with(
    start: StreamStart,
    before: ClientView,
    text: Seq<char>,
    after: ClientView,
    waited: bool,
) -> bool {
    match start {
        StreamStart::Cancelled => after == before,
        StreamStart::Request { request, answer } => {
            &&& views::of(request.messages@) == before.history.messages.push(
                MessageView { role: Role::User, content: text },
            )
            &&& after.history.messages == views::of(request.messages@)
            &&& request.stream
            &&& request.model@ == before.config.model@
            &&& answer@.collector.reported == !waited
            &&& !answer@.ended
            &&& answer@.buffer.len() == 0
        },
    }
}

/// Whichever way a streamed answer is asked for, it is asked for with the whole conversation; its
/// full text is waited for where it is to become a part of it, and only there.
pub proof fn law_every_stream_asks_alike(
    a: &mut LlmClient,
    b: &mut LlmClient,
    c: &mut LlmClient,
    d: &mut LlmClient,
    text: &str,
    token: CancellationToken,
    plain: StreamStart,
    plain_with_token: StreamStart,
    kept: StreamStart,
    kept_with_token: StreamStart,
)
    requires
        call_ensures(LlmClient::chat_stream, (a, text), plain),
        call_ensures(LlmClient::chat_stream_with_token, (b, text, token), plain_with_token),
        call_ensures(LlmClient::chat_stream_with_history, (c, text), kept),
        call_ensures(
            LlmClient::chat_stream_with_history_and_token,
            (d, text, token),
            kept_with_token,
        ),
    ensures
        asks_with(plain, old(a)@, text@, final(a)@, false),
        asks_with(plain_with_token, old(b)@, text@, final(b)@, false),
        asks_with(kept, old(c)@, text@, final(c)@, true),
        asks_with(kept_with_token, old(d)@, text@, final(d)@, true),
        plain is Cancelled ==> old(a).token().reads(true),
        plain is Request ==> old(a).token().reads(false),
        plain_with_token is Cancelled ==> token.reads(true),
        plain_with_token is Request ==> token.reads(false),
        kept is Cancelled ==> old(c).token().reads(true),
        kept is Request ==> old(c).token().reads(false),
        kept_with_token is Cancelled ==> token.reads(true),
        kept_with_token is Request ==> token.reads(false),
{
}

} // verus!
