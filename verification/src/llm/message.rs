//! The messages of a conversation.

use vstd::prelude::*;
use vstd::string::*;

verus! {

/// Who speaks in a message.
#[derive(Debug, Clone, Copy, PartialEq, Eq, Structural)]
pub enum Role {
    System,
    User,
    Assistant,
}

/// A single message of the conversation.
#[derive(Debug)]
pub struct Message {
    pub role: Role,
    pub content: String,
}

/// The mathematical counterpart of a [`Message`].
pub struct MessageView {
    pub role: Role,
    pub content: Seq<char>,
}

impl View for Message {
    type V = MessageView;

    open spec fn view(&self) -> MessageView {
        MessageView { role: self.role, content: self.content@ }
    }
}

impl Clone for Message {
    fn clone(&self) -> (r: Self)
        ensures
            r == *self,
    {
        Message { role: self.role, content: self.content.clone() }
    }
}

/// What can be turned into the text of a message.
pub trait IntoText: Sized {
    /// The text.
    spec fn text(self) -> Seq<char>;

    /// Hands the text out.
    fn into_text(self) -> (r: String)
        ensures
            r@ == self.text(),
    ;
}

impl IntoText for String {
    open spec fn text(self) -> Seq<char> {
        self@
    }

    fn into_text(self) -> (r: String) {
        self
    }
}

impl IntoText for &String {
    open spec fn text(self) -> Seq<char> {
        self@
    }

    fn into_text(self) -> (r: String) {
        self.clone()
    }
}

impl IntoText for &str {
    open spec fn text(self) -> Seq<char> {
        self@
    }

    fn into_text(self) -> (r: String) {
        self.to_owned()
    }
}

impl Message {
    /// A message that instructs the model.
    pub fn system<T: IntoText>(content: T) -> (r: Self)
        ensures
            r@ == (MessageView { role: Role::System, content: content.text() }),
    {
        Message { role: Role::System, content: content.into_text() }
    }

    /// A message of the user.
    pub fn user<T: IntoText>(content: T) -> (r: Self)
        ensures
            r@ == (MessageView { role: Role::User, content: content.text() }),
    {
        Message { role: Role::User, content: content.into_text() }
    }

    /// A message of the model.
    pub fn assistant<T: IntoText>(content: T) -> (r: Self)
        ensures
            r@ == (MessageView { role: Role::Assistant, content: content.text() }),
    {
        Message { role: Role::Assistant, content: content.into_text() }
    }
}

/// A message says who speaks, and holds the text as it was given.
pub proof fn law_messages_hold_their_text(
    text: &str,
    system: Message,
    user: Message,
    assistant: Message,
)
    requires
        call_ensures(Message::system::<&str>, (text,), system),
        call_ensures(Message::user::<&str>, (text,), user),
        call_ensures(Message::assistant::<&str>, (text,), assistant),
    ensures
        system.role == Role::System && system.content@ == text@,
        user.role == Role::User && user.content@ == text@,
        assistant.role == Role::Assistant && assistant.content@ == text@,
{
}

} // verus!
