//! The keyboard-driven state machine: what each key does on the contact list
//! and inside a conversation, and what one turn of the main loop does with
//! the events it found.

use vstd::prelude::*;

use crate::clock::{is_date_text, timestamp};
use crate::gateway::{FormPost, FormPostView};
use crate::store::{has_number, lemma_position_found, only_appended, App, AppView};
use crate::text::without_last;

verus! {

/// The keys that mean something here; every other key is `Other`.
#[derive(Clone, Copy, Debug, PartialEq, Eq)]
pub enum KeyCode {
    Esc,
    Enter,
    Up,
    Down,
    Backspace,
    Char(char),
    Other,
}

/// Whether a key went down, is being held, or came up.
#[derive(Clone, Copy, Debug, PartialEq, Eq)]
pub enum KeyEventKind {
    Press,
    Repeat,
    Release,
}

/// One event from the keyboard.
#[derive(Clone, Copy, Debug, PartialEq, Eq)]
pub struct KeyEvent {
    pub code: KeyCode,
    pub kind: KeyEventKind,
}

/// What the main loop has to do after a turn.
#[derive(Clone, Debug, PartialEq, Eq)]
pub enum Action {
    /// Go on with the next turn.
    Continue,
    /// End the loop.
    Quit,
    /// Hand the request to the gateway, then go on.
    Send(FormPost),
}

/// What an [`Action`] stands for in contracts.
#[verifier::ext_equal]
pub enum ActionView {
    Continue,
    Quit,
    Send(FormPostView),
}

impl View for Action {
    type V = ActionView;

    open spec fn view(&self) -> ActionView {
        match self {
            Action::Continue => ActionView::Continue,
            Action::Quit => ActionView::Quit,
            Action::Send(request) => ActionView::Send(request@),
        }
    }
}

/// An inbound message as the listener hands it over: the text, then the
/// number it came from.
pub open spec fn inbound_view(inbound: Option<(String, String)>) -> Option<(Seq<char>, Seq<char>)> {
    match inbound {
        Some(pair) => Some((pair.0@, pair.1@)),
        None => None,
    }
}

impl AppView {
    /// `ch` is typed at the end of the buffer.
    pub open spec fn type_char(self, ch: char) -> AppView {
        self.with_buffer(self.message.push(ch))
    }

    /// The last character of the buffer is taken back.
    pub open spec fn backspace(self) -> AppView {
        self.with_buffer(without_last(self.message))
    }

    /// The buffer becomes the number of a new nameless contact, and is
    /// emptied.
    pub open spec fn enter_number(self) -> AppView {
        self.add_contact(self.message, None).with_buffer(Seq::empty())
    }

    /// A key pressed while the contact list is shown.
    pub open spec fn on_list_key(self, code: KeyCode) -> (AppView, ActionView) {
        match code {
            KeyCode::Esc => (self, ActionView::Quit),
            KeyCode::Char(ch) => if ch == 'q' {
                (self, ActionView::Quit)
            } else {
                (self.type_char(ch), ActionView::Continue)
            },
            KeyCode::Enter => if self.message.len() == 0 {
                (self.open_selected(), ActionView::Continue)
            } else {
                (self.enter_number(), ActionView::Continue)
            },
            KeyCode::Up => (self.select_previous(), ActionView::Continue),
            KeyCode::Down => (self.select_next(), ActionView::Continue),
            KeyCode::Backspace => (self.backspace(), ActionView::Continue),
            KeyCode::Other => (self, ActionView::Continue),
        }
    }

    /// A key pressed while a conversation is open. `date` is the time of
    /// the press.
    pub open spec fn on_message_key(self, code: KeyCode, date: Seq<char>) -> (AppView, ActionView) {
        match code {
            KeyCode::Esc => (self.close(), ActionView::Continue),
            KeyCode::Char(ch) => (self.type_char(ch), ActionView::Continue),
            KeyCode::Backspace => (self.backspace(), ActionView::Continue),
            KeyCode::Enter => (self.send(date), ActionView::Send(self.send_request())),
            _ => (self, ActionView::Continue),
        }
    }

    /// A key pressed at `date`.
    pub open spec fn on_key(self, code: KeyCode, date: Seq<char>) -> (AppView, ActionView) {
        if self.curr_contact is Some {
            self.on_message_key(code, date)
        } else {
            self.on_list_key(code)
        }
    }

    /// A keyboard event at `date`. Only a press does anything.
    pub open spec fn on_event(self, key: KeyEvent, date: Seq<char>) -> (AppView, ActionView) {
        if key.kind is Press {
            self.on_key(key.code, date)
        } else {
            (self, ActionView::Continue)
        }
    }

    /// One turn of the main loop at `date`: first the inbound message, if
    /// one is waiting, then the keyboard event, if one is waiting.
    pub open spec fn tick(
        self,
        inbound: Option<(Seq<char>, Seq<char>)>,
        key: Option<KeyEvent>,
        date: Seq<char>,
    ) -> (AppView, ActionView) {
        let received = match inbound {
            Some((text, number)) => self.upsert_inbound(text, number, date),
            None => self,
        };
        match key {
            Some(event) => received.on_event(event, date),
            None => (received, ActionView::Continue),
        }
    }
}

/// The press of a key.
pub open spec fn press(code: KeyCode) -> KeyEvent {
    KeyEvent { code, kind: KeyEventKind::Press }
}

/// On the contact list, Enter with an empty buffer and row `index`
/// highlighted opens conversation `index` and changes nothing else.
pub proof fn lemma_enter_opens_highlighted(s: AppView, index: usize, date: Seq<char>)
    requires
        s.curr_contact is None,
        s.message.len() == 0,
        s.selected == Some(index),
    ensures
        s.on_event(press(KeyCode::Enter), date) == (s.open(index), ActionView::Continue),
        s.on_event(press(KeyCode::Enter), date).0.curr_contact == Some(index),
{
}

/// In a conversation, Escape goes back to the contact list: no conversation
/// is open afterwards, and the highlight, the buffer and the contacts are as
/// they were.
pub proof fn lemma_escape_closes(s: AppView, date: Seq<char>)
    requires
        s.curr_contact is Some,
    ensures
        s.on_event(press(KeyCode::Esc), date) == (s.close(), ActionView::Continue),
        s.on_event(press(KeyCode::Esc), date).0.curr_contact is None,
        s.on_event(press(KeyCode::Esc), date).0.selected == s.selected,
        s.on_event(press(KeyCode::Esc), date).0.message == s.message,
        s.on_event(press(KeyCode::Esc), date).0.contacts == s.contacts,
{
}

/// A key that is held or released changes nothing and asks nothing of the
/// loop, whatever the key and whatever the state.
pub proof fn lemma_only_a_press_acts(s: AppView, key: KeyEvent, date: Seq<char>)
    requires
        !(key.kind is Press),
    ensures
        s.on_event(key, date) == (s, ActionView::Continue),
        s.tick(None, Some(key), date) == (s, ActionView::Continue),
{
}

/// Every turn of the loop keeps the highlight and the open conversation
/// inside the contact list.
pub proof fn lemma_tick_keeps_wf(
    s: AppView,
    inbound: Option<(Seq<char>, Seq<char>)>,
    key: Option<KeyEvent>,
    date: Seq<char>,
)
    requires
        s.wf(),
    ensures
        s.tick(inbound, key, date).0.wf(),
{
    match inbound {
        Some((_, number)) => {
            if has_number(s.contacts, number) {
                lemma_position_found(s.contacts, number);
            }
        },
        None => {},
    }
}

/// A conversation is opened only by a press of Enter on the contact list,
/// with an empty buffer, and it is the highlighted one; an open conversation
/// is left only by a press of Escape, and never exchanged for another.
pub proof fn lemma_mode_changes(
    s: AppView,
    inbound: Option<(Seq<char>, Seq<char>)>,
    key: Option<KeyEvent>,
    date: Seq<char>,
)
    ensures
        ({
            let t = s.tick(inbound, key, date).0;
            &&& s.curr_contact is None && t.curr_contact is Some ==> {
                &&& key == Some(press(KeyCode::Enter))
                &&& s.message.len() == 0
                &&& t.curr_contact == s.selected
            }
            &&& s.curr_contact is Some && t.curr_contact != s.curr_contact ==> {
                &&& key == Some(press(KeyCode::Esc))
                &&& t.curr_contact is None
            }
        }),
{
}

/// No turn of the loop takes a contact or a message away, or changes one
/// that is there: whatever the events, the contacts afterwards are the ones
/// before, each with its history possibly longer at the end, and possibly
/// new contacts behind them.
pub proof fn lemma_tick_only_appends(
    s: AppView,
    inbound: Option<(Seq<char>, Seq<char>)>,
    key: Option<KeyEvent>,
    date: Seq<char>,
)
    requires
        s.wf(),
    ensures
        only_appended(s.contacts, s.tick(inbound, key, date).0.contacts),
{
    match inbound {
        Some((_, number)) => {
            if has_number(s.contacts, number) {
                lemma_position_found(s.contacts, number);
            }
        },
        None => {},
    }
}

impl App {
    /// Types `ch` at the end of the buffer.
    pub fn type_char(&mut self, ch: char)
        ensures
            final(self)@ == old(self)@.type_char(ch),
            old(self).wf() ==> final(self).wf(),
    {
        self.message.push(ch);
    }

    /// Takes back the last character of the buffer, if it has one.
    pub fn backspace(&mut self)
        ensures
            final(self)@ == old(self)@.backspace(),
            old(self).wf() ==> final(self).wf(),
    {
        let _ = self.message.pop();
    }

    /// Makes the buffer the number of a new nameless contact and empties it.
    pub fn enter_number(&mut self)
        ensures
            final(self)@ == old(self)@.enter_number(),
            old(self).wf() ==> final(self).wf(),
    {
        let number = self.message.clone();
        self.new_contact(number, None);
        self.message = String::new();
    }

    /// Applies a key pressed at `date` and says what the loop has to do.
    ///
    /// On the contact list: Escape and `q` quit; Up and Down move the
    /// highlight; Enter opens the highlighted conversation while the buffer
    /// is empty, and else adds the buffer as a new contact's number; other
    /// characters and Backspace edit the buffer. In a conversation: Escape
    /// goes back to the list and keeps the buffer; Enter sends the buffer;
    /// characters and Backspace edit it.
    pub fn handle_key(&mut self, code: KeyCode, date: String) -> (action: Action)
        requires
            old(self).wf(),
        ensures
            (final(self)@, action@) == old(self)@.on_key(code, date@),
            final(self).wf(),
    {
        if self.curr_contact.is_some() {
            match code {
                KeyCode::Esc => {
                    self.close();
                    Action::Continue
                },
                KeyCode::Char(ch) => {
                    self.type_char(ch);
                    Action::Continue
                },
                KeyCode::Backspace => {
                    self.backspace();
                    Action::Continue
                },
                KeyCode::Enter => {
                    let request = self.send_message_at(date);
                    Action::Send(request)
                },
                _ => Action::Continue,
            }
        } else {
            match code {
                KeyCode::Esc => Action::Quit,
                KeyCode::Char(ch) => {
                    if ch == 'q' {
                        Action::Quit
                    } else {
                        self.type_char(ch);
                        Action::Continue
                    }
                },
                KeyCode::Enter => {
                    if self.message.as_str().is_empty() {
                        self.open_selected_contact();
                    } else {
                        self.enter_number();
                    }
                    Action::Continue
                },
                KeyCode::Up => {
                    self.select_previous();
                    Action::Continue
                },
                KeyCode::Down => {
                    self.select_next();
                    Action::Continue
                },
                KeyCode::Backspace => {
                    self.backspace();
                    Action::Continue
                },
                KeyCode::Other => Action::Continue,
            }
        }
    }

    /// Applies a keyboard event that came at `date`. Only a press is acted
    /// on: a key that is held or released changes nothing.
    pub fn handle_event(&mut self, key: KeyEvent, date: String) -> (action: Action)
        requires
            old(self).wf(),
        ensures
            (final(self)@, action@) == old(self)@.on_event(key, date@),
            final(self).wf(),
    {
        match key.kind {
            KeyEventKind::Press => self.handle_key(key.code, date),
            _ => Action::Continue,
        }
    }

    /// One turn of the main loop at `date`: records the inbound message, if
    /// one is waiting, whatever screen is shown; then applies the keyboard
    /// event, if one is waiting.
    pub fn tick_at(
        &mut self,
        inbound: Option<(String, String)>,
        key: Option<KeyEvent>,
        date: String,
    ) -> (action: Action)
        requires
            old(self).wf(),
        ensures
            (final(self)@, action@) == old(self)@.tick(inbound_view(inbound), key, date@),
            final(self).wf(),
    {
        match inbound {
            Some((text, number)) => {
                let _ = self.peepee_poopoo_at(text, number, date.clone());
            },
            None => {},
        }
        match key {
            Some(event) => self.handle_event(event, date),
            None => Action::Continue,
        }
    }

    /// One turn of the main loop, dated by the clock.
    pub fn tick(
        &mut self,
        inbound: Option<(String, String)>,
        key: Option<KeyEvent>,
    ) -> (action: Action)
        requires
            old(self).wf(),
        ensures
            exists|date: Seq<char>|
                is_date_text(date) && (final(self)@, action@) == #[trigger] old(self)@.tick(
                    inbound_view(inbound),
                    key,
                    date,
                ),
            final(self).wf(),
    {
        let date = timestamp();
        self.tick_at(inbound, key, date)
    }
}

} // verus!
