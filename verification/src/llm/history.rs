//! The history of a conversation.

use vstd::prelude::*;
use vstd::string::*;

use crate::llm::message::{Message, MessageView, Role};
use crate::views;

verus! {

/// What instructs the model where nothing else was configured.
pub const DEFAULT_SYSTEM_PROMPT: &'static str = "You are a helpful assistant. Keep responses brief.";

/// The messages of a conversation, with the prompt that instructs the model.
pub struct LlmHistory {
    messages: Vec<Message>,
    system_prompt: String,
}

/// The mathematical counterpart of an [`LlmHistory`].
pub struct HistoryView {
    pub messages: Seq<MessageView>,
    pub system_prompt: Seq<char>,
}

impl View for LlmHistory {
    type V = HistoryView;

    closed spec fn view(&self) -> HistoryView {
        HistoryView { messages: views::of(self.messages@), system_prompt: self.system_prompt@ }
    }
}

/// The message that carries a system prompt.
pub open spec fn prompt_message(prompt: Seq<char>) -> MessageView {
    MessageView { role: Role::System, content: prompt }
}

impl HistoryView {
    /// The history of a conversation that has not begun, under the given prompt.
    pub open spec fn fresh(prompt: Seq<char>) -> HistoryView {
        HistoryView { messages: seq![prompt_message(prompt)], system_prompt: prompt }
    }

    /// The history with one more message.
    pub open spec fn with_message(self, message: MessageView) -> HistoryView {
        HistoryView { messages: self.messages.push(message), ..self }
    }

    /// The history under another prompt: it replaces the system message that the messages begin
    /// with, or becomes the first message where they do not begin with one.
    pub open spec fn with_prompt(self, prompt: Seq<char>) -> HistoryView {
        HistoryView {
            messages: if self.messages.len() > 0 && self.messages[0].role == Role::System {
                self.messages.update(0, prompt_message(prompt))
            } else {
                seq![prompt_message(prompt)] + self.messages
            },
            system_prompt: prompt,
        }
    }

    /// Whether the messages begin with the one that carries the system prompt.
    pub open spec fn begins_with_prompt(self) -> bool {
        self.messages.len() > 0 && self.messages[0] == prompt_message(self.system_prompt)
    }
}

/// Every history begins with its system prompt: a fresh one does, and adding a message and
/// changing the prompt keep it so.
pub proof fn law_begins_with_prompt(h: HistoryView, message: MessageView, prompt: Seq<char>)
    requires
        h.begins_with_prompt(),
    ensures
        HistoryView::fresh(prompt).begins_with_prompt(),
        h.with_message(message).begins_with_prompt(),
        h.with_prompt(prompt).begins_with_prompt(),
{
}

/// Changing the prompt leaves the conversation itself as it was, and of two changes the later
/// counts.
pub proof fn law_prompt_change_keeps_the_conversation(
    h: HistoryView,
    first: Seq<char>,
    second: Seq<char>,
)
    requires
        h.begins_with_prompt(),
    ensures
        h.with_prompt(first).messages.skip(1) == h.messages.skip(1),
        h.with_prompt(first).with_prompt(second) == h.with_prompt(second),
        h.with_prompt(h.system_prompt) == h,
{
    assert(h.with_prompt(first).messages.skip(1) =~= h.messages.skip(1));
    assert(h.with_prompt(first).with_prompt(second).messages =~= h.with_prompt(second).messages);
    assert(h.with_prompt(h.system_prompt).messages =~= h.messages);
}

/// A message that was added is the last of the history, behind all that were there.
pub proof fn law_added_message_is_read_back(h: HistoryView, message: MessageView)
    ensures
        h.with_message(message).messages.last() == message,
        h.with_message(message).messages.drop_last() == h.messages,
        h.with_message(message).system_prompt == h.system_prompt,
{
    assert(h.with_message(message).messages.drop_last() =~= h.messages);
}

impl LlmHistory {
    /// A history that holds nothing but the default prompt.
    pub fn new() -> (r: Self)
        ensures
            r@ == HistoryView::fresh(DEFAULT_SYSTEM_PROMPT@),
    {
        broadcast use views::group_views;

        let system_prompt = DEFAULT_SYSTEM_PROMPT.to_owned();
        let mut messages: Vec<Message> = Vec::new();
        messages.push(Message::system(system_prompt.clone()));
        let r = LlmHistory { messages, system_prompt };
        assert(r@.messages =~= HistoryView::fresh(DEFAULT_SYSTEM_PROMPT@).messages);
        r
    }

    /// Adds a message to the end.
    pub fn add_message(&mut self, message: Message)
        ensures
            final(self)@ == old(self)@.with_message(message@),
    {
        broadcast use views::group_views;

        self.messages.push(message);
    }

    /// All messages, in order.
    pub fn get_messages(&self) -> (r: Vec<Message>)
        ensures
            views::of(r@) == self@.messages,
    {
        let mut r: Vec<Message> = Vec::new();
        let n: usize = self.messages.len();
        let mut i: usize = 0;
        while i < n
            invariant
                i <= n,
                n == self.messages@.len(),
                r@ == self.messages@.take(i as int),
            decreases n - i,
        {
            r.push(self.messages[i].clone());
            assert(self.messages@.take(i + 1) =~= self.messages@.take(i as int).push(
                self.messages@[i as int],
            ));
            i = i + 1;
        }
        assert(r@ =~= self.messages@);
        r
    }

    /// The prompt that instructs the model.
    pub fn get_system_prompt(&self) -> (r: String)
        ensures
            r@ == self@.system_prompt,
    {
        self.system_prompt.clone()
    }

    /// Changes the prompt that instructs the model.
    pub fn set_system_prompt(&mut self, prompt: String)
        ensures
            final(self)@ == old(self)@.with_prompt(prompt@),
    {
        let ghost before = self@;
        self.system_prompt = prompt.clone();
        if self.messages.len() > 0 {
            match self.messages[0].role {
                Role::System => {
                    self.messages.set(0, Message::system(prompt));
                },
                _ => {
                    self.messages.insert(0, Message::system(prompt));
                },
            }
        } else {
            self.messages.push(Message::system(prompt));
        }
        assert(self@.messages =~= before.with_prompt(self.system_prompt@).messages);
    }

    /// Drops all messages and goes back to the default prompt.
    pub fn clear(&mut self)
        ensures
            final(self)@ == HistoryView::fresh(DEFAULT_SYSTEM_PROMPT@),
    {
        self.system_prompt = DEFAULT_SYSTEM_PROMPT.to_owned();
        self.messages.clear();
        self.messages.push(Message::system(self.system_prompt.clone()));
        assert(self@.messages =~= HistoryView::fresh(DEFAULT_SYSTEM_PROMPT@).messages);
    }

    /// The number of messages.
    pub fn len(&self) -> (r: usize)
        ensures
            r == self@.messages.len(),
    {
        self.messages.len()
    }

    /// The message at `index`, where there is one.
    pub fn get(&self, index: usize) -> (r: Option<&Message>)
        ensures
            match r {
                Some(message) => index < self@.messages.len() && message@
                    == self@.messages[index as int],
                None => index >= self@.messages.len(),
            },
    {
        if index < self.messages.len() {
            Some(&self.messages[index])
        } else {
            None
        }
    }
}

impl Clone for LlmHistory {
    fn clone(&self) -> (r: Self)
        ensures
            r@ == self@,
    {
        LlmHistory { messages: self.get_messages(), system_prompt: self.system_prompt.clone() }
    }
}

impl vstd::std_specs::core::IndexSpecImpl<usize> for LlmHistory {
    open spec fn index_req(&self, index: &usize) -> bool {
        *index < self@.messages.len()
    }
}

impl std::ops::Index<usize> for LlmHistory {
    type Output = Message;

    fn index(&self, index: usize) -> (r: &Message)
        ensures
            r@ == self@.messages[index as int],
    {
        &self.messages[index]
    }
}

/// What is added is read back: behind all that was there, with its role and its text.
pub proof fn law_history_keeps_messages(
    h: &mut LlmHistory,
    message: Message,
    after: &LlmHistory,
    messages: Vec<Message>,
    len: usize,
    index: usize,
    got: Option<&Message>,
)
    requires
        call_ensures(LlmHistory::add_message, (h, message), ()),
        *final(h) == *after,
        call_ensures(LlmHistory::get_messages, (after,), messages),
        call_ensures(LlmHistory::len, (after,), len),
        call_ensures(LlmHistory::get, (after, index), got),
    ensures
        len == messages@.len(),
        len == old(h)@.messages.len() + 1,
        messages@.last().role == message.role,
        messages@.last().content@ == message.content@,
        forall|i: int|
            0 <= i < len - 1 ==> (#[trigger] messages@[i])@ == old(h)@.messages[i],
        got is Some <==> index < len,
        got matches Some(m) ==> m.role == messages@[index as int].role && m.content@
            == messages@[index as int].content@,
        final(h)@.system_prompt == old(h)@.system_prompt,
{
    let all = views::of(messages@);
    assert(forall|i: int| 0 <= i < messages@.len() ==> all[i] == (#[trigger] messages@[i])@);
}

/// A change of the prompt is read back, stands first as a system message, and leaves all other
/// messages as they were, in order.
pub proof fn law_history_changes_its_prompt(
    h: &mut LlmHistory,
    prompt: String,
    after: &LlmHistory,
    read: String,
)
    requires
        call_ensures(LlmHistory::set_system_prompt, (h, prompt), ()),
        *final(h) == *after,
        call_ensures(LlmHistory::get_system_prompt, (after,), read),
    ensures
        read@ == prompt@,
        after@.messages.len() > 0,
        after@.messages[0] == (MessageView { role: Role::System, content: prompt@ }),
        ({
            let before = old(h)@.messages;
            let others = if before.len() > 0 && before[0].role == Role::System {
                before.skip(1)
            } else {
                before
            };
            after@.messages.skip(1) == others
        }),
{
    let before = old(h)@.messages;
    if before.len() > 0 && before[0].role == Role::System {
        assert(after@.messages.skip(1) =~= before.skip(1));
    } else {
        assert(after@.messages.skip(1) =~= before);
    }
}

/// A cleared history is one that has not begun, whatever it held.
pub proof fn law_history_is_cleared(h: &mut LlmHistory, fresh: LlmHistory)
    requires
        call_ensures(LlmHistory::clear, (h,), ()),
        call_ensures(LlmHistory::new, (), fresh),
    ensures
        final(h)@ == fresh@,
        fresh@.messages.len() == 1,
        fresh@.messages[0] == (MessageView {
            role: Role::System,
            content: fresh@.system_prompt,
        }),
        fresh@.system_prompt == DEFAULT_SYSTEM_PROMPT@,
{
}

} // verus!
