//! The screen as plain text: what each line says, before anything is drawn.
//! Colours and borders are left to whoever draws it.

use vstd::prelude::*;
use vstd::string::*;
use vstd::utf8::encode_utf8;

use crate::contact::{Contact, ContactView, Message, MessageView};
use crate::store::{App, AppView};
use crate::text::{decimal, pad_end, pad_start, padded_end, padded_start, push_decimal};

verus! {

/// The width of the columns that hold a number, a name or a date.
pub const COLUMN_WIDTH: usize = 16;

/// What the bottom line says on the contact list while nothing is typed.
pub const LIST_HINT: &'static str =
    "(Esc) / (q), (Up) & (Down), (Enter) -- Type to add a new number";

/// What the bottom line says in a conversation while nothing is typed.
pub const CHAT_HINT: &'static str = "(Esc), Type & (Enter)";

/// One line of the contact list, in its three parts.
#[derive(Clone, Debug, PartialEq, Eq)]
pub struct ContactRow {
    pub number: String,
    pub name: String,
    pub count: String,
}

/// What a [`ContactRow`] stands for in contracts.
#[verifier::ext_equal]
pub struct ContactRowView {
    pub number: Seq<char>,
    pub name: Seq<char>,
    pub count: Seq<char>,
}

impl View for ContactRow {
    type V = ContactRowView;

    open spec fn view(&self) -> ContactRowView {
        ContactRowView { number: self.number@, name: self.name@, count: self.count@ }
    }
}

/// One line of a conversation, in its three parts, and whether the message
/// was typed here.
#[derive(Clone, Debug, PartialEq, Eq)]
pub struct MessageRow {
    pub date: String,
    pub sender: String,
    pub text: String,
    pub from_self: bool,
}

/// What a [`MessageRow`] stands for in contracts.
#[verifier::ext_equal]
pub struct MessageRowView {
    pub date: Seq<char>,
    pub sender: Seq<char>,
    pub text: Seq<char>,
    pub from_self: bool,
}

impl View for MessageRow {
    type V = MessageRowView;

    open spec fn view(&self) -> MessageRowView {
        MessageRowView {
            date: self.date@,
            sender: self.sender@,
            text: self.text@,
            from_self: self.from_self,
        }
    }
}

/// The middle of the screen: the contact list with its highlighted row, or
/// the open conversation.
#[derive(Clone, Debug, PartialEq, Eq)]
pub enum Body {
    Contacts { rows: Vec<ContactRow>, selected: Option<usize> },
    Messages(Vec<MessageRow>),
}

/// What a [`Body`] stands for in contracts.
#[verifier::ext_equal]
pub enum BodyView {
    Contacts { rows: Seq<ContactRowView>, selected: Option<usize> },
    Messages(Seq<MessageRowView>),
}

impl View for Body {
    type V = BodyView;

    open spec fn view(&self) -> BodyView {
        match self {
            Body::Contacts { rows, selected } => BodyView::Contacts {
                rows: rows@.map_values(|r: ContactRow| r@),
                selected: *selected,
            },
            Body::Messages(rows) => BodyView::Messages(rows@.map_values(|r: MessageRow| r@)),
        }
    }
}

/// The three parts of the screen, top to bottom.
#[derive(Clone, Debug, PartialEq, Eq)]
pub struct Screen {
    pub header: String,
    pub body: Body,
    pub footer: String,
}

/// What a [`Screen`] stands for in contracts.
#[verifier::ext_equal]
pub struct ScreenView {
    pub header: Seq<char>,
    pub body: BodyView,
    pub footer: Seq<char>,
}

impl View for Screen {
    type V = ScreenView;

    open spec fn view(&self) -> ScreenView {
        ScreenView { header: self.header@, body: self.body@, footer: self.footer@ }
    }
}

/// The title: how many contacts there are.
pub open spec fn header_text(contacts: nat) -> Seq<char> {
    "sms-chat: "@ + decimal(contacts) + " contacts"@
}

/// The line of a contact: a space and its number, its name or nothing, each
/// filled up to the column width, then how many messages it has.
pub open spec fn contact_row(contact: ContactView) -> ContactRowView {
    ContactRowView {
        number: " "@ + padded_end(contact.number, COLUMN_WIDTH as nat),
        name: padded_end(
            match contact.name {
                Some(name) => name,
                None => Seq::empty(),
            },
            COLUMN_WIDTH as nat,
        ),
        count: decimal(contact.messages.len()) + " messages"@,
    }
}

/// Who a message is shown as coming from.
pub open spec fn sender_of(contact: ContactView, message: MessageView) -> Seq<char> {
    if message.from_self {
        "You"@
    } else {
        contact.label()
    }
}

/// The line of a message: its date filled up to the column width; its
/// sender, moved right to the width that the contact's label takes in bytes,
/// then a colon and a space; its text.
pub open spec fn message_row(contact: ContactView, message: MessageView) -> MessageRowView {
    MessageRowView {
        date: padded_end(message.date, COLUMN_WIDTH as nat),
        sender: padded_start(sender_of(contact, message), encode_utf8(contact.label()).len())
            + ": "@,
        text: message.text,
        from_self: message.from_self,
    }
}

/// The bottom line: what is being typed, or the keys of the screen shown
/// while nothing is.
pub open spec fn footer_text(s: AppView) -> Seq<char> {
    if s.message.len() > 0 {
        s.message
    } else if s.curr_contact is None {
        LIST_HINT@
    } else {
        CHAT_HINT@
    }
}

/// The middle of the screen.
pub open spec fn body_of(s: AppView) -> BodyView {
    match s.curr_contact {
        None => BodyView::Contacts {
            rows: s.contacts.map_values(|c: ContactView| contact_row(c)),
            selected: s.selected,
        },
        Some(index) => BodyView::Messages(
            s.contacts[index as int].messages.map_values(
                |m: MessageView| message_row(s.contacts[index as int], m),
            ),
        ),
    }
}

/// The whole screen.
pub open spec fn screen_of(s: AppView) -> ScreenView {
    ScreenView {
        header: header_text(s.contacts.len()),
        body: body_of(s),
        footer: footer_text(s),
    }
}

/// The title line.
pub fn render_header(app: &App) -> (text: String)
    ensures
        text@ == header_text(app@.contacts.len()),
{
    let mut text = "sms-chat: ".to_owned();
    push_decimal(&mut text, app.contact_list.items.len());
    text.append(" contacts");
    text
}

fn render_contact(contact: &Contact) -> (row: ContactRow)
    ensures
        row@ == contact_row(contact@),
{
    let mut number = " ".to_owned();
    number.append(pad_end(contact.number.as_str(), COLUMN_WIDTH).as_str());
    let name = match &contact.name {
        Some(name) => pad_end(name.as_str(), COLUMN_WIDTH),
        None => pad_end("", COLUMN_WIDTH),
    };
    let mut count = String::new();
    push_decimal(&mut count, contact.messages.len());
    count.append(" messages");
    proof {
        reveal_strlit("");
    }
    ContactRow { number, name, count }
}

/// The lines of the contact list, one for each contact, in order.
pub fn render_body_contacts(app: &App) -> (rows: Vec<ContactRow>)
    ensures
        rows@.map_values(|r: ContactRow| r@) == app@.contacts.map_values(
            |c: ContactView| contact_row(c),
        ),
{
    let mut rows: Vec<ContactRow> = Vec::new();
    let mut i: usize = 0;
    while i < app.contact_list.items.len()
        invariant
            i <= app.contact_list.items.len(),
            rows@.len() == i,
            forall|j: int| 0 <= j < i ==> (#[trigger] rows@[j])@ == contact_row(app@.contacts[j]),
        decreases app.contact_list.items.len() - i,
    {
        rows.push(render_contact(&app.contact_list.items[i]));
        i += 1;
    }
    rows
}

fn render_message(contact: &Contact, message: &Message) -> (row: MessageRow)
    ensures
        row@ == message_row(contact@, message@),
{
    let label = contact.label();
    let width = label.as_str().as_bytes().len();
    let mut sender = if message.from_self {
        pad_start("You", width)
    } else {
        pad_start(label.as_str(), width)
    };
    sender.append(": ");
    MessageRow {
        date: pad_end(message.date.as_str(), COLUMN_WIDTH),
        sender,
        text: message.text.clone(),
        from_self: message.from_self,
    }
}

/// The lines of the open conversation, one for each message, in order.
pub fn render_body_messages(app: &App) -> (rows: Vec<MessageRow>)
    requires
        app.curr_contact matches Some(i) && i < app.contact_list.items.len(),
    ensures
        body_of(app@) == BodyView::Messages(rows@.map_values(|r: MessageRow| r@)),
{
    let index = match app.curr_contact {
        Some(i) => i,
        None => 0,
    };
    let contact = &app.contact_list.items[index];
    let mut rows: Vec<MessageRow> = Vec::new();
    let mut i: usize = 0;
    while i < contact.messages.len()
        invariant
            i <= contact.messages.len(),
            rows@.len() == i,
            forall|j: int|
                0 <= j < i ==> (#[trigger] rows@[j])@ == message_row(
                    contact@,
                    contact@.messages[j],
                ),
        decreases contact.messages.len() - i,
    {
        rows.push(render_message(contact, &contact.messages[i]));
        i += 1;
    }
    rows
}

/// The bottom line.
pub fn render_footer(app: &App) -> (text: String)
    ensures
        text@ == footer_text(app@),
{
    if !app.message.as_str().is_empty() {
        app.message.clone()
    } else {
        match app.curr_contact {
            None => LIST_HINT.to_owned(),
            Some(_) => CHAT_HINT.to_owned(),
        }
    }
}

/// Lays the state out as a screen: the title, then the contact list or the
/// open conversation, then the bottom line.
pub fn ui(app: &App) -> (screen: Screen)
    requires
        app.wf(),
    ensures
        screen@ == screen_of(app@),
{
    let header = render_header(app);
    let body = match app.curr_contact {
        None => Body::Contacts {
            rows: render_body_contacts(app),
            selected: app.contact_list.selected,
        },
        Some(_) => Body::Messages(render_body_messages(app)),
    };
    let footer = render_footer(app);
    Screen { header, body, footer }
}

} // verus!
