//! A voice agent, from its start to its end.

use vstd::prelude::*;
use vstd::string::*;

use crate::llm::client::{ClientView, LlmClient, StreamStart};
use crate::llm::config::LlmConfig;
use crate::llm::history::{HistoryView, LlmHistory, DEFAULT_SYSTEM_PROMPT};
use crate::llm::stream::CollectorView;
use crate::llm::token::CancellationToken;
use crate::llm::client;
use crate::views;
use crate::voice_agent::event::{EventView, VoiceAgentEvent};
use crate::voice_agent::turn::Turn;

verus! {

/// How often it is looked whether the agent is to stop.
pub const STOP_POLL_MS: u64 = 100;

/// The configuration of an agent.
pub struct Config {
    pub stt_api_key: String,
    pub stt_endpoint: String,
    pub stt_language: String,
    pub tts_api_key: String,
    pub tts_endpoint: String,
    pub tts_voice_id: String,
    pub llm_api_key: String,
    pub llm_model: String,
    pub llm_endpoint: String,
    pub llm_system_prompt: String,
}

impl Clone for Config {
    fn clone(&self) -> (r: Self)
        ensures
            r == *self,
    {
        Config {
            stt_api_key: self.stt_api_key.clone(),
            stt_endpoint: self.stt_endpoint.clone(),
            stt_language: self.stt_language.clone(),
            tts_api_key: self.tts_api_key.clone(),
            tts_endpoint: self.tts_endpoint.clone(),
            tts_voice_id: self.tts_voice_id.clone(),
            llm_api_key: self.llm_api_key.clone(),
            llm_model: self.llm_model.clone(),
            llm_endpoint: self.llm_endpoint.clone(),
            llm_system_prompt: self.llm_system_prompt.clone(),
        }
    }
}

impl Config {
    /// Whether `llm` is how the configured language model is reached.
    pub open spec fn describes(&self, llm: LlmConfig) -> bool {
        &&& llm.endpoint == self.llm_endpoint
        &&& llm.api_key == self.llm_api_key
        &&& llm.model == self.llm_model
        &&& llm.system_prompt is Some
        &&& llm.system_prompt->0@ == self.llm_system_prompt@
        &&& llm.temperature is None
        &&& llm.max_tokens is None
    }

    /// How the configured language model is reached.
    pub fn llm_config(&self) -> (r: LlmConfig)
        ensures
            self.describes(r),
    {
        LlmConfig::new(
            self.llm_endpoint.clone(),
            self.llm_api_key.clone(),
            self.llm_model.clone(),
        ).with_system_prompt(&self.llm_system_prompt)
    }
}

/// What to do next to start an agent.
#[derive(Debug)]
pub enum StartStep {
    /// Connect to speech recognition.
    ConnectStt,
    /// Connect to speech synthesis.
    ConnectTts,
    /// Start the tasks of the agent; it is running.
    SpawnTasks,
    /// Give up.
    Fail(String),
    /// Give up, once speech recognition is shut down again.
    ShutdownSttAndFail(String),
}

/// What to do to end an agent.
#[derive(Debug)]
pub enum ShutdownStep {
    /// Tell the loops of speech recognition that the end is final.
    MarkSttFinal,
    /// Tell the loops of speech synthesis that the end is final.
    MarkTtsFinal,
    /// Shut speech recognition down.
    ShutdownStt,
    /// Shut speech synthesis down.
    ShutdownTts,
    /// Send an event to the main loop.
    Send(VoiceAgentEvent),
    /// Wait until all tasks have ended.
    WaitForTasks,
}

/// The mathematical counterpart of a [`ShutdownStep`].
pub enum ShutdownStepView {
    MarkSttFinal,
    MarkTtsFinal,
    ShutdownStt,
    ShutdownTts,
    Send(EventView),
    WaitForTasks,
}

impl View for ShutdownStep {
    type V = ShutdownStepView;

    open spec fn view(&self) -> ShutdownStepView {
        match *self {
            ShutdownStep::MarkSttFinal => ShutdownStepView::MarkSttFinal,
            ShutdownStep::MarkTtsFinal => ShutdownStepView::MarkTtsFinal,
            ShutdownStep::ShutdownStt => ShutdownStepView::ShutdownStt,
            ShutdownStep::ShutdownTts => ShutdownStepView::ShutdownTts,
            ShutdownStep::Send(e) => ShutdownStepView::Send(e@),
            ShutdownStep::WaitForTasks => ShutdownStepView::WaitForTasks,
        }
    }
}

/// The mathematical counterpart of a [`VoiceAgent`].
pub struct AgentView {
    pub config: Config,
    /// The client of the language model, once the agent was started.
    pub llm: Option<ClientView>,
    /// Whether events reach the main loop.
    pub accepting: bool,
    /// Whether the agent was told to stop.
    pub stopping: bool,
}

impl AgentView {
    /// The steps that end the agent: the loops are told, then the connections are shut down, then
    /// the main loop is ended, then all tasks are waited for.
    pub open spec fn shutdown_steps(self) -> Seq<ShutdownStepView> {
        let connections = if self.llm is Some {
            seq![
                ShutdownStepView::MarkSttFinal,
                ShutdownStepView::MarkTtsFinal,
                ShutdownStepView::ShutdownStt,
                ShutdownStepView::ShutdownTts,
            ]
        } else {
            seq![]
        };
        let main_loop = if self.accepting {
            seq![ShutdownStepView::Send(EventView::Shutdown)]
        } else {
            seq![]
        };
        connections + main_loop + seq![ShutdownStepView::WaitForTasks]
    }

    /// The agent with another conversation; without a client there is none.
    pub open spec fn with_history(self, history: HistoryView) -> AgentView {
        AgentView {
            llm: match self.llm {
                Some(llm) => Some(ClientView { history, ..llm }),
                None => None,
            },
            ..self
        }
    }

    /// The conversation, or a fresh one where there is no client.
    pub open spec fn history(self) -> HistoryView {
        match self.llm {
            Some(llm) => llm.history,
            None => HistoryView::fresh(DEFAULT_SYSTEM_PROMPT@),
        }
    }
}

/// What was put in place as the conversation is read back, as long as the agent has a client.
pub proof fn law_history_is_read_back(agent: AgentView, history: HistoryView)
    requires
        agent.llm is Some,
    ensures
        agent.with_history(history).history() == history,
        agent.with_history(history).with_history(agent.history()) == agent,
{
}

/// A turn is remembered: once it is over, the conversation is what it was, followed by what the
/// user said and by what came of the answer.
pub proof fn law_turn_is_remembered(
    before: ClientView,
    user_input: Seq<char>,
    start: StreamStart,
    after: ClientView,
    response: Seq<char>,
)
    requires
        before.starts(user_input, false, CollectorView::silent(), start, after),
    ensures
        after.history.with_message(client::assistant_message(response)).messages
            == before.history.messages + seq![
            client::user_message(user_input),
            client::assistant_message(response),
        ],
{
    assert(after.history.with_message(client::assistant_message(response)).messages
        =~= before.history.messages + seq![
        client::user_message(user_input),
        client::assistant_message(response),
    ]);
}

/// A voice agent.
pub struct VoiceAgent {
    config: Config,
    llm: Option<LlmClient>,
    accepting: bool,
    stopping: bool,
}

impl View for VoiceAgent {
    type V = AgentView;

    closed spec fn view(&self) -> AgentView {
        AgentView {
            config: self.config,
            llm: views::opt(self.llm),
            accepting: self.accepting,
            stopping: self.stopping,
        }
    }
}

impl VoiceAgent {
    /// The flag that cancels the language model's answer.
    pub closed spec fn token(&self) -> Option<CancellationToken> {
        match self.llm {
            Some(llm) => Some(llm.token()),
            None => None,
        }
    }

    /// An agent that was not started.
    pub fn new(config: Config) -> (r: Self)
        ensures
            r@ == (AgentView { config, llm: None, accepting: false, stopping: false }),
    {
        VoiceAgent { config, llm: None, accepting: false, stopping: false }
    }

    /// The configuration.
    pub fn config(&self) -> (r: &Config)
        ensures
            *r == self@.config,
    {
        &self.config
    }

    /// Says what to do next to start the agent, given what came of the connections so far.
    pub fn start(
        &mut self,
        stt: Option<Result<(), String>>,
        tts: Option<Result<(), String>>,
    ) -> (r: StartStep)
        ensures
            match r {
                StartStep::ConnectStt => {
                    &&& stt is None
                    &&& final(self)@ == old(self)@
                    &&& final(self).token() == old(self).token()
                },
                StartStep::Fail(e) => {
                    &&& stt is Some
                    &&& stt->0 is Err
                    &&& e@ == "STT connection failed: "@ + (stt->0)->Err_0@
                    &&& final(self)@ == old(self)@
                    &&& final(self).token() == old(self).token()
                },
                StartStep::ConnectTts => {
                    &&& stt is Some
                    &&& stt->0 is Ok
                    &&& tts is None
                    &&& final(self)@ == old(self)@
                    &&& final(self).token() == old(self).token()
                },
                StartStep::ShutdownSttAndFail(e) => {
                    &&& stt is Some
                    &&& stt->0 is Ok
                    &&& tts is Some
                    &&& tts->0 is Err
                    &&& e@ == "TTS connection failed: "@ + (tts->0)->Err_0@
                    &&& final(self)@ == old(self)@
                    &&& final(self).token() == old(self).token()
                },
                StartStep::SpawnTasks => {
                    &&& stt is Some
                    &&& stt->0 is Ok
                    &&& tts is Some
                    &&& tts->0 is Ok
                    &&& final(self)@ == (AgentView {
                        llm: final(self)@.llm,
                        accepting: true,
                        ..old(self)@
                    })
                    &&& final(self)@.llm is Some
                    &&& old(self)@.config.describes(final(self)@.llm->0.config)
                    &&& final(self)@.llm->0.history == client::initial_history(
                        final(self)@.llm->0.config,
                    )
                    &&& final(self).token() is Some
                    &&& final(self).token()->0.made_of(false)
                },
            },
    {
        match stt {
            None => StartStep::ConnectStt,
            Some(Err(e)) => {
                let mut message = "STT connection failed: ".to_owned();
                message.append(e.as_str());
                StartStep::Fail(message)
            },
            Some(Ok(())) => match tts {
                None => StartStep::ConnectTts,
                Some(Err(e)) => {
                    let mut message = "TTS connection failed: ".to_owned();
                    message.append(e.as_str());
                    StartStep::ShutdownSttAndFail(message)
                },
                Some(Ok(())) => {
                    self.llm = Some(LlmClient::new(self.config.llm_config()));
                    self.accepting = true;
                    StartStep::SpawnTasks
                },
            },
        }
    }

    /// Tells the agent to stop.
    pub fn set_stopping(&mut self)
        ensures
            final(self)@ == (AgentView { stopping: true, ..old(self)@ }),
            final(self).token() == old(self).token(),
    {
        self.stopping = true;
    }

    /// Whether the agent was told to stop.
    pub fn is_stopping(&self) -> (r: bool)
        ensures
            r == self@.stopping,
    {
        self.stopping
    }

    /// How long to let the agent run before asking again; it runs no longer once it was told to
    /// stop.
    pub fn run(&self) -> (r: Option<u64>)
        ensures
            r == if self@.stopping {
                None
            } else {
                Some(STOP_POLL_MS)
            },
    {
        if self.is_stopping() {
            None
        } else {
            Some(STOP_POLL_MS)
        }
    }

    /// Says what to do to end the agent. From here on no event reaches the main loop.
    pub fn shutdown(&mut self) -> (r: Vec<ShutdownStep>)
        ensures
            views::of(r@) == old(self)@.shutdown_steps(),
            final(self)@ == (AgentView { accepting: false, ..old(self)@ }),
            final(self).token() == old(self).token(),
    {
        broadcast use views::group_views;

        let mut r: Vec<ShutdownStep> = Vec::new();
        let ghost before = self@;
        if self.llm.is_some() {
            r.push(ShutdownStep::MarkSttFinal);
            r.push(ShutdownStep::MarkTtsFinal);
            r.push(ShutdownStep::ShutdownStt);
            r.push(ShutdownStep::ShutdownTts);
        }
        if self.accepting {
            r.push(ShutdownStep::Send(VoiceAgentEvent::Shutdown));
        }
        r.push(ShutdownStep::WaitForTasks);
        self.accepting = false;
        assert(views::of(r@) =~= before.shutdown_steps());
        r
    }

    /// The event that has a text spoken, where events reach the main loop.
    pub fn inject_tts_speech(&self, text: String) -> (r: Option<VoiceAgentEvent>)
        ensures
            views::opt(r) == if self@.accepting {
                Some(EventView::TtsSpeech(text@))
            } else {
                None
            },
    {
        if self.accepting {
            Some(VoiceAgentEvent::TtsSpeech(text))
        } else {
            None
        }
    }

    /// The event that ends the conversation with an error, where events reach the main loop.
    pub fn inject_error(&self, error_message: String) -> (r: Option<VoiceAgentEvent>)
        ensures
            views::opt(r) == if self@.accepting {
                Some(EventView::Error(error_message@))
            } else {
                None
            },
    {
        if self.accepting {
            Some(VoiceAgentEvent::Error(error_message))
        } else {
            None
        }
    }

    /// The conversation, or a fresh one where the agent was not started.
    pub fn get_llm_history(&self) -> (r: LlmHistory)
        ensures
            r@ == self@.history(),
    {
        match &self.llm {
            Some(llm) => llm.history(),
            None => LlmHistory::new(),
        }
    }

    /// Puts another conversation in place.
    pub fn set_llm_history(&mut self, history: LlmHistory)
        ensures
            final(self)@ == old(self)@.with_history(history@),
            final(self).token() == old(self).token(),
    {
        if let Some(mut llm) = self.llm.take() {
            llm.set_history(history);
            self.llm = Some(llm);
        }
    }

    /// Drops the conversation and goes back to the default prompt.
    pub fn clear_llm_history(&mut self)
        ensures
            final(self)@ == old(self)@.with_history(HistoryView::fresh(DEFAULT_SYSTEM_PROMPT@)),
            final(self).token() == old(self).token(),
    {
        if let Some(mut llm) = self.llm.take() {
            llm.set_history(LlmHistory::new());
            self.llm = Some(llm);
        }
    }

    /// Changes the prompt that instructs the model.
    pub fn set_llm_system_prompt(&mut self, prompt: String)
        ensures
            final(self)@ == old(self)@.with_history(old(self)@.history().with_prompt(prompt@)),
            final(self).token() == old(self).token(),
    {
        if let Some(mut llm) = self.llm.take() {
            llm.set_system_prompt(prompt);
            self.llm = Some(llm);
        }
    }

    /// The prompt that instructs the model, or none where the agent was not started.
    pub fn get_llm_system_prompt(&self) -> (r: String)
        ensures
            r@ == match self@.llm {
                Some(llm) => llm.history.system_prompt,
                None => seq![],
            },
    {
        match &self.llm {
            Some(llm) => llm.get_system_prompt(),
            None => {
                let r = String::new();
                assert(r@ =~= seq![]);
                r
            },
        }
    }

    /// Another holder of the flag that cancels the language model's answer.
    pub fn cancellation_token(&self) -> (r: Option<CancellationToken>)
        ensures
            r == self.token(),
            r is Some <==> self@.llm is Some,
    {
        match &self.llm {
            Some(llm) => Some(llm.cancellation_token()),
            None => None,
        }
    }

    /// Begins a turn of the language model: makes its answer possible again after a cancellation,
    /// and then asks for it, unless the flag says by then that it is cancelled once more.
    pub fn begin_turn(&mut self, user_input: &str) -> (r: Option<StreamStart>)
        ensures
            match r {
                Some(start) => {
                    &&& old(self)@.llm is Some
                    &&& final(self)@ == (AgentView { llm: final(self)@.llm, ..old(self)@ })
                    &&& final(self)@.llm is Some
                    &&& old(self).token() is Some
                    &&& old(self).token()->0.writes(false)
                    &&& exists|cancelled: bool|
                        old(self).token()->0.reads_after_reset(cancelled) && #[trigger] old(
                            self,
                        )@.llm->0.starts(
                            user_input@,
                            cancelled,
                            CollectorView::silent(),
                            start,
                            final(self)@.llm->0,
                        )
                },
                None => old(self)@.llm is None && final(self)@ == old(self)@,
            },
            final(self).token() == old(self).token(),
    {
        match self.llm.take() {
            Some(mut llm) => {
                let token = llm.cancellation_token().renewed();
                let cancelled: bool = token.is_cancelled();
                let start = llm.start_stream(user_input, cancelled, false);
                self.llm = Some(llm);
                assert(old(self)@.llm->0.starts(
                    user_input@,
                    cancelled,
                    CollectorView::silent(),
                    start,
                    self@.llm->0,
                ));
                Some(start)
            },
            None => None,
        }
    }

    /// Ends a turn of the language model: adds its answer to the conversation, however much of it
    /// has come.
    pub fn end_turn(&mut self, turn: &Turn)
        ensures
            final(self)@ == old(self)@.with_history(
                old(self)@.history().with_message(client::assistant_message(turn@.response)),
            ),
            final(self).token() == old(self).token(),
    {
        if let Some(mut llm) = self.llm.take() {
            llm.add_assistant_response(turn.response());
            self.llm = Some(llm);
        }
    }
}

/// An agent starts in order: recognition is connected, then synthesis, and only once both are is it
/// running, with a client for the configured model. What fails ends the start with the report of
/// it, and a recognition that was connected is then shut down again.
pub proof fn law_agent_starts_in_order(
    a: &mut VoiceAgent,
    stt: Option<Result<(), String>>,
    tts: Option<Result<(), String>>,
    r: StartStep,
)
    requires
        call_ensures(VoiceAgent::start, (a, stt, tts), r),
    ensures
        r is ConnectStt <==> stt is None,
        r is Fail <==> stt is Some && stt->0 is Err,
        r is ConnectTts <==> stt is Some && stt->0 is Ok && tts is None,
        r is ShutdownSttAndFail <==> stt is Some && stt->0 is Ok && tts is Some && tts->0 is Err,
        r is SpawnTasks <==> stt is Some && stt->0 is Ok && tts is Some && tts->0 is Ok,
        r matches StartStep::Fail(e) ==> exists|what: Seq<char>|
            e@ == #[trigger] (what + (stt->0)->Err_0@),
        r matches StartStep::ShutdownSttAndFail(e) ==> exists|what: Seq<char>|
            e@ == #[trigger] (what + (tts->0)->Err_0@),
        !(r is SpawnTasks) ==> final(a)@ == old(a)@,
        r is SpawnTasks ==> {
            let config = old(a)@.config;
            &&& final(a)@.accepting
            &&& final(a)@.stopping == old(a)@.stopping
            &&& final(a)@.config == config
            &&& final(a)@.llm is Some
            &&& final(a)@.llm->0.config.endpoint@ == config.llm_endpoint@
            &&& final(a)@.llm->0.config.api_key@ == config.llm_api_key@
            &&& final(a)@.llm->0.config.model@ == config.llm_model@
            &&& final(a)@.llm->0.history.messages == seq![
                crate::llm::message::MessageView {
                    role: crate::llm::message::Role::System,
                    content: config.llm_system_prompt@,
                },
            ]
        },
{
    if r is Fail {
        assert(r->Fail_0@ == "STT connection failed: "@ + (stt->0)->Err_0@);
    }
    if r is ShutdownSttAndFail {
        assert(r->ShutdownSttAndFail_0@ == "TTS connection failed: "@ + (tts->0)->Err_0@);
    }
    if r is SpawnTasks {
        assert(final(a)@.llm->0.history.messages =~= seq![
            crate::llm::message::MessageView {
                role: crate::llm::message::Role::System,
                content: old(a)@.config.llm_system_prompt@,
            },
        ]);
    }
}

/// An agent ends in order: the loops are told that the end is final before the connections are shut
/// down, the main loop is told once events still reach it, and all tasks are waited for last. From
/// then on no event reaches the main loop.
pub proof fn law_agent_ends_in_order(a: &mut VoiceAgent, r: Vec<ShutdownStep>)
    requires
        call_ensures(VoiceAgent::shutdown, (a,), r),
    ensures
        r@.len() > 0,
        r@.last() is WaitForTasks,
        old(a)@.llm is Some ==> r@.len() >= 5 && r@[0] is MarkSttFinal && r@[1] is MarkTtsFinal
            && r@[2] is ShutdownStt && r@[3] is ShutdownTts,
        old(a)@.llm is None ==> forall|i: int|
            0 <= i < r@.len() ==> (#[trigger] r@[i]) is Send || r@[i] is WaitForTasks,
        old(a)@.accepting <==> exists|i: int|
            0 <= i < r@.len() && (#[trigger] r@[i]) matches ShutdownStep::Send(
                VoiceAgentEvent::Shutdown,
            ),
        !final(a)@.accepting,
        final(a)@.llm == old(a)@.llm,
{
    let steps = views::of(r@);
    assert(forall|i: int| 0 <= i < r@.len() ==> steps[i] == (#[trigger] r@[i])@);
    assert(steps.len() == r@.len());
    assert(steps == old(a)@.shutdown_steps());
    if old(a)@.accepting {
        let i = r@.len() - 2;
        assert(steps[i] == ShutdownStepView::Send(EventView::Shutdown));
        assert(r@[i] matches ShutdownStep::Send(VoiceAgentEvent::Shutdown));
    }
}

/// What an application injects reaches the main loop as it is, while events reach it.
pub proof fn law_injected_events_reach_the_loop(
    a: &VoiceAgent,
    text: String,
    speech: Option<VoiceAgentEvent>,
    error: Option<VoiceAgentEvent>,
)
    requires
        call_ensures(VoiceAgent::inject_tts_speech, (a, text), speech),
        call_ensures(VoiceAgent::inject_error, (a, text), error),
    ensures
        a@.accepting ==> (speech matches Some(VoiceAgentEvent::TtsSpeech(s)) && s@ == text@),
        a@.accepting ==> (error matches Some(VoiceAgentEvent::Error(s)) && s@ == text@),
        !a@.accepting ==> speech is None && error is None,
{
}

/// An agent runs until it is told to stop, with a look ten times a second.
pub proof fn law_agent_runs_until_told(
    a: &VoiceAgent,
    wait: Option<u64>,
    b: &mut VoiceAgent,
    config: Config,
    fresh: VoiceAgent,
)
    requires
        call_ensures(VoiceAgent::run, (a,), wait),
        call_ensures(VoiceAgent::set_stopping, (b,), ()),
        call_ensures(VoiceAgent::new, (config,), fresh),
    ensures
        wait is None <==> a@.stopping,
        wait is Some ==> wait->0 == 100,
        final(b)@.stopping,
        final(b)@.llm == old(b)@.llm,
        fresh@.config == config && !fresh@.stopping && !fresh@.accepting && fresh@.llm is None,
{
}

/// The conversation is read, replaced, cleared and given another prompt as the history itself is,
/// and nothing else of the agent changes with it.
pub proof fn law_agent_keeps_its_conversation(
    a: &VoiceAgent,
    read: crate::llm::history::LlmHistory,
    prompt: String,
    b: &mut VoiceAgent,
    history: crate::llm::history::LlmHistory,
    c: &mut VoiceAgent,
    d: &mut VoiceAgent,
    other: String,
)
    requires
        call_ensures(VoiceAgent::get_llm_history, (a,), read),
        call_ensures(VoiceAgent::get_llm_system_prompt, (a,), prompt),
        call_ensures(VoiceAgent::set_llm_history, (b, history), ()),
        call_ensures(VoiceAgent::clear_llm_history, (c,), ()),
        call_ensures(VoiceAgent::set_llm_system_prompt, (d, other), ()),
    ensures
        a@.llm matches Some(llm) ==> read@ == llm.history && prompt@ == llm.history.system_prompt,
        old(b)@.llm is Some ==> final(b)@.llm is Some && final(b)@.llm->0.history == history@,
        old(c)@.llm is Some ==> final(c)@.llm is Some && final(c)@.llm->0.history.messages == seq![
            crate::llm::message::MessageView {
                role: crate::llm::message::Role::System,
                content: DEFAULT_SYSTEM_PROMPT@,
            },
        ],
        old(d)@.llm is Some ==> final(d)@.llm is Some && final(d)@.llm->0.history.system_prompt
            == other@ && final(d)@.llm->0.history.messages.len() > 0
            && final(d)@.llm->0.history.messages[0] == (crate::llm::message::MessageView {
            role: crate::llm::message::Role::System,
            content: other@,
        }),
        final(b)@.accepting == old(b)@.accepting && final(b)@.config == old(b)@.config,
        final(c)@.accepting == old(c)@.accepting && final(c)@.config == old(c)@.config,
        final(d)@.accepting == old(d)@.accepting && final(d)@.config == old(d)@.config,
{
}

/// A turn asks with all that was said before and what the user says now, and what came of the
/// answer is remembered behind it.
pub proof fn law_turns_are_remembered(
    a: &mut VoiceAgent,
    input: &str,
    start: Option<StreamStart>,
    b: &mut VoiceAgent,
    turn: &Turn,
)
    requires
        call_ensures(VoiceAgent::begin_turn, (a, input), start),
        call_ensures(VoiceAgent::end_turn, (b, turn), ()),
    ensures
        start is Some <==> old(a)@.llm is Some,
        start matches Some(StreamStart::Request { request, answer: _ }) ==> {
            &&& views::of(request.messages@) == old(a)@.llm->0.history.messages.push(
                crate::llm::message::MessageView {
                    role: crate::llm::message::Role::User,
                    content: input@,
                },
            )
            &&& final(a)@.llm->0.history.messages == views::of(request.messages@)
            &&& request.stream
            &&& request.model@ == old(a)@.llm->0.config.model@
        },
        start matches Some(StreamStart::Cancelled) ==> final(a)@ == old(a)@,
        old(b)@.llm is Some ==> final(b)@.llm is Some && final(b)@.llm->0.history.messages == old(
            b,
        )@.llm->0.history.messages.push(
            crate::llm::message::MessageView {
                role: crate::llm::message::Role::Assistant,
                content: turn@.response,
            },
        ),
{
}

/// The language model is reached as configured, with nothing said about how it is to answer but the
/// prompt.
pub proof fn law_model_is_reached_as_configured(c: &Config, r: LlmConfig)
    requires
        call_ensures(Config::llm_config, (c,), r),
    ensures
        r.endpoint@ == c.llm_endpoint@,
        r.api_key@ == c.llm_api_key@,
        r.model@ == c.llm_model@,
        r.system_prompt matches Some(prompt) && prompt@ == c.llm_system_prompt@,
        r.temperature is None,
        r.max_tokens is None,
{
}

} // verus!
