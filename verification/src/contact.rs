//! Contacts and their message histories.

use vstd::prelude::*;

verus! {

/// One text message of a conversation. Never changed once created.
#[derive(Clone, Debug, PartialEq, Eq)]
pub struct Message {
    /// `true` for a message typed here, `false` for one that came in.
    pub from_self: bool,
    pub text: String,
    /// When the message was recorded, already formatted for display.
    pub date: String,
}

/// What a [`Message`] stands for in contracts.
#[verifier::ext_equal]
pub struct MessageView {
    pub from_self: bool,
    pub text: Seq<char>,
    pub date: Seq<char>,
}

impl View for Message {
    type V = MessageView;

    open spec fn view(&self) -> MessageView {
        MessageView { from_self: self.from_self, text: self.text@, date: self.date@ }
    }
}

/// The message that records `text` as received at `date`.
pub open spec fn inbound(text: Seq<char>, date: Seq<char>) -> MessageView {
    MessageView { from_self: false, text, date }
}

/// The message that records `text` as sent from here at `date`.
pub open spec fn outbound(text: Seq<char>, date: Seq<char>) -> MessageView {
    MessageView { from_self: true, text, date }
}

impl Message {
    /// A message that came in.
    pub fn received(text: String, date: String) -> (message: Message)
        ensures
            message@ == inbound(text@, date@),
    {
        Message { from_self: false, text, date }
    }

    /// A message typed here.
    pub fn sent(text: String, date: String) -> (message: Message)
        ensures
            message@ == outbound(text@, date@),
    {
        Message { from_self: true, text, date }
    }

    /// A copy with the same content.
    pub fn duplicate(&self) -> (copy: Message)
        ensures
            copy@ == self@,
    {
        Message { from_self: self.from_self, text: self.text.clone(), date: self.date.clone() }
    }
}

/// A phone number, an optional display name, and the messages exchanged with
/// that number in the order they arrived.
#[derive(Clone, Debug, PartialEq, Eq)]
pub struct Contact {
    pub number: String,
    pub name: Option<String>,
    pub messages: Vec<Message>,
}

/// What a [`Contact`] stands for in contracts.
#[verifier::ext_equal]
pub struct ContactView {
    pub number: Seq<char>,
    pub name: Option<Seq<char>>,
    pub messages: Seq<MessageView>,
}

/// The characters of an optional string.
pub open spec fn text_of(s: Option<String>) -> Option<Seq<char>> {
    match s {
        Some(t) => Some(t@),
        None => None,
    }
}

impl View for Contact {
    type V = ContactView;

    open spec fn view(&self) -> ContactView {
        ContactView {
            number: self.number@,
            name: text_of(self.name),
            messages: self.messages@.map_values(|m: Message| m@),
        }
    }
}

impl ContactView {
    /// A contact with no messages yet.
    pub open spec fn fresh(number: Seq<char>, name: Option<Seq<char>>) -> ContactView {
        ContactView { number, name, messages: Seq::empty() }
    }

    /// This contact with `message` added at the end of its history.
    pub open spec fn with_message(self, message: MessageView) -> ContactView {
        ContactView { number: self.number, name: self.name, messages: self.messages.push(message) }
    }

    /// How the contact is shown: by its name, or by its number while it has none.
    pub open spec fn label(self) -> Seq<char> {
        match self.name {
            Some(name) => name,
            None => self.number,
        }
    }
}

impl Contact {
    /// A contact with no messages yet.
    pub fn new(number: String, name: Option<String>) -> (contact: Contact)
        ensures
            contact@ == ContactView::fresh(number@, text_of(name)),
    {
        Contact { number, name, messages: Vec::new() }
    }

    /// Adds `message` at the end of the history.
    pub fn push_message(&mut self, message: Message)
        ensures
            final(self)@ == old(self)@.with_message(message@),
    {
        self.messages.push(message);
    }

    /// How the contact is shown: its name, or its number while it has none.
    pub fn label(&self) -> (text: String)
        ensures
            text@ == self@.label(),
    {
        match &self.name {
            Some(name) => name.clone(),
            None => self.number.clone(),
        }
    }
}

} // verus!
