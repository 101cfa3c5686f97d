//! The conversation store: every contact with its history, which row of the
//! contact list is highlighted, which conversation is open, and the text
//! being typed.

use vstd::prelude::*;

use crate::clock::{is_date_text, timestamp};
use crate::contact::{inbound, outbound, text_of, Contact, ContactView, Message, MessageView};
use crate::gateway::{
    send_msg, send_msg_request, FormPost, FormPostView, TwilioConfig, TwilioConfigView,
};
use crate::selection::{held_to, hold_to, next_index, previous_index, step_down, step_up};

verus! {

/// The contacts in the order they were added, and the highlighted row.
#[derive(Clone, Debug, PartialEq, Eq)]
pub struct ContactList {
    pub items: Vec<Contact>,
    pub selected: Option<usize>,
}

/// The whole state of a session.
#[derive(Clone, Debug, PartialEq, Eq)]
pub struct App {
    pub contact_list: ContactList,
    /// The conversation that is open, if one is.
    pub curr_contact: Option<usize>,
    /// The text being typed. It is one buffer for both screens.
    pub message: String,
    pub twilio_config: TwilioConfig,
}

/// What an [`App`] stands for in contracts.
#[verifier::ext_equal]
pub struct AppView {
    pub contacts: Seq<ContactView>,
    pub selected: Option<usize>,
    pub curr_contact: Option<usize>,
    pub message: Seq<char>,
    pub twilio_config: TwilioConfigView,
}

impl View for ContactList {
    type V = Seq<ContactView>;

    open spec fn view(&self) -> Seq<ContactView> {
        self.items@.map_values(|c: Contact| c@)
    }
}

impl View for App {
    type V = AppView;

    open spec fn view(&self) -> AppView {
        AppView {
            contacts: self.contact_list@,
            selected: self.contact_list.selected,
            curr_contact: self.curr_contact,
            message: self.message@,
            twilio_config: self.twilio_config@,
        }
    }
}

/// Some contact has this number.
pub open spec fn has_number(contacts: Seq<ContactView>, number: Seq<char>) -> bool {
    exists|i: int| 0 <= i < contacts.len() && (#[trigger] contacts[i]).number == number
}

/// Contact `i` has this number and none before it has.
pub open spec fn is_first_with_number(contacts: Seq<ContactView>, number: Seq<char>, i: int)
    -> bool {
    &&& 0 <= i < contacts.len()
    &&& contacts[i].number == number
    &&& forall|j: int| 0 <= j < i ==> (#[trigger] contacts[j]).number != number
}

/// The first contact with this number, if there is one.
pub open spec fn position_of(contacts: Seq<ContactView>, number: Seq<char>) -> Option<int> {
    if has_number(contacts, number) {
        Some(choose|i: int| is_first_with_number(contacts, number, i))
    } else {
        None
    }
}

/// `after` has every contact of `before` in its place, with its number and
/// name, and with a history that starts with the one it had: contacts and
/// messages are only ever added at the end.
pub open spec fn only_appended(before: Seq<ContactView>, after: Seq<ContactView>) -> bool {
    &&& before.len() <= after.len()
    &&& forall|i: int|
        0 <= i < before.len() ==> {
            &&& (#[trigger] after[i]).number == before[i].number
            &&& after[i].name == before[i].name
            &&& before[i].messages.is_prefix_of(after[i].messages)
        }
}

/// No two contacts share a number.
pub open spec fn numbers_distinct(contacts: Seq<ContactView>) -> bool {
    forall|i: int, j: int|
        0 <= i < j < contacts.len() ==> (#[trigger] contacts[i]).number != (
        #[trigger] contacts[j]).number
}

/// `position_of` is the one index that `is_first_with_number` accepts.
pub proof fn lemma_position_of(contacts: Seq<ContactView>, number: Seq<char>, i: int)
    requires
        is_first_with_number(contacts, number, i),
    ensures
        position_of(contacts, number) == Some(i),
{
}

/// Where a number occurs, `position_of` gives its first contact.
pub proof fn lemma_position_found(contacts: Seq<ContactView>, number: Seq<char>)
    requires
        has_number(contacts, number),
    ensures
        position_of(contacts, number) matches Some(i) && is_first_with_number(contacts, number, i),
{
    let w = choose|i: int| 0 <= i < contacts.len() && (#[trigger] contacts[i]).number == number;
    lemma_first_exists(contacts, number, w);
}

proof fn lemma_first_exists(contacts: Seq<ContactView>, number: Seq<char>, w: int)
    requires
        0 <= w < contacts.len(),
        contacts[w].number == number,
    ensures
        exists|i: int| is_first_with_number(contacts, number, i),
    decreases w,
{
    if exists|j: int| 0 <= j < w && (#[trigger] contacts[j]).number == number {
        let j = choose|j: int| 0 <= j < w && (#[trigger] contacts[j]).number == number;
        lemma_first_exists(contacts, number, j);
    } else {
        assert(is_first_with_number(contacts, number, w));
    }
}

impl AppView {
    /// A session with no contacts and nothing typed.
    pub open spec fn start(twilio_config: TwilioConfigView) -> AppView {
        AppView {
            contacts: Seq::empty(),
            selected: None,
            curr_contact: None,
            message: Seq::empty(),
            twilio_config,
        }
    }

    /// The highlighted row and the open conversation, where there is one,
    /// are rows of the contact list.
    pub open spec fn wf(self) -> bool {
        &&& self.selected matches Some(i) ==> i < self.contacts.len()
        &&& self.curr_contact matches Some(i) ==> i < self.contacts.len()
    }

    /// The same session over other contacts.
    pub open spec fn with_contacts(self, contacts: Seq<ContactView>) -> AppView {
        AppView {
            contacts,
            selected: self.selected,
            curr_contact: self.curr_contact,
            message: self.message,
            twilio_config: self.twilio_config,
        }
    }

    /// The same session with other text in the buffer.
    pub open spec fn with_buffer(self, message: Seq<char>) -> AppView {
        AppView {
            contacts: self.contacts,
            selected: self.selected,
            curr_contact: self.curr_contact,
            message,
            twilio_config: self.twilio_config,
        }
    }

    /// A new contact without messages is added at the end, whether or not
    /// its number is already there.
    pub open spec fn add_contact(self, number: Seq<char>, name: Option<Seq<char>>) -> AppView {
        self.with_contacts(self.contacts.push(ContactView::fresh(number, name)))
    }

    /// `message` is added at the end of contact `index`'s history.
    pub open spec fn with_message(self, index: int, message: MessageView) -> AppView {
        self.with_contacts(self.contacts.update(index, self.contacts[index].with_message(message)))
    }

    /// The contact that an inbound message from `number` goes to: the first
    /// that has the number, else a new one at the end.
    pub open spec fn upsert_index(self, number: Seq<char>) -> int {
        match position_of(self.contacts, number) {
            Some(i) => i,
            None => self.contacts.len() as int,
        }
    }

    /// An inbound message is recorded with the first contact that has its
    /// number; where none has, with a new nameless contact at the end.
    pub open spec fn upsert_inbound(self, text: Seq<char>, number: Seq<char>, date: Seq<char>)
        -> AppView {
        match position_of(self.contacts, number) {
            Some(i) => self.with_message(i, inbound(text, date)),
            None => self.add_contact(number, None).with_message(
                self.contacts.len() as int,
                inbound(text, date),
            ),
        }
    }

    /// A message typed here is recorded with contact `index`.
    pub open spec fn record_outbound(self, index: int, text: Seq<char>, date: Seq<char>)
        -> AppView {
        self.with_message(index, outbound(text, date))
    }

    /// The buffer is recorded as a message to the open conversation, and
    /// emptied.
    pub open spec fn send(self, date: Seq<char>) -> AppView {
        self.record_outbound(self.curr_contact->0 as int, self.message, date).with_buffer(
            Seq::empty(),
        )
    }

    /// What the gateway is asked to do for `send`.
    pub open spec fn send_request(self) -> FormPostView {
        send_msg_request(
            self.twilio_config,
            self.message,
            self.contacts[self.curr_contact->0 as int].number,
        )
    }

    /// The highlight is moved.
    pub open spec fn select(self, selected: Option<usize>) -> AppView {
        AppView {
            contacts: self.contacts,
            selected,
            curr_contact: self.curr_contact,
            message: self.message,
            twilio_config: self.twilio_config,
        }
    }

    /// Conversation `index` is opened.
    pub open spec fn open(self, index: usize) -> AppView {
        AppView {
            contacts: self.contacts,
            selected: self.selected,
            curr_contact: Some(index),
            message: self.message,
            twilio_config: self.twilio_config,
        }
    }

    /// The highlighted conversation is opened; nothing happens while no row
    /// is highlighted.
    pub open spec fn open_selected(self) -> AppView {
        match self.selected {
            Some(index) => self.open(index),
            None => self,
        }
    }

    /// The open conversation is left. The highlight and the buffer stay.
    pub open spec fn close(self) -> AppView {
        AppView {
            contacts: self.contacts,
            selected: self.selected,
            curr_contact: None,
            message: self.message,
            twilio_config: self.twilio_config,
        }
    }

    /// The highlight moves one row down, and stays on the last row.
    pub open spec fn select_next(self) -> AppView {
        self.select(held_to(next_index(self.selected), self.contacts.len()))
    }

    /// The highlight moves one row up, and stays on the first row. From no
    /// highlight it goes to the last row.
    pub open spec fn select_previous(self) -> AppView {
        self.select(held_to(previous_index(self.selected), self.contacts.len()))
    }

    /// The contacts are replaced by what was stored, if anything was. A
    /// highlight or an open conversation that the new list does not have is
    /// dropped.
    pub open spec fn load(self, stored: Option<Seq<ContactView>>) -> AppView {
        match stored {
            None => self,
            Some(contacts) => AppView {
                contacts,
                selected: if self.selected matches Some(i) && i < contacts.len() {
                    self.selected
                } else {
                    None
                },
                curr_contact: if self.curr_contact matches Some(i) && i < contacts.len() {
                    self.curr_contact
                } else {
                    None
                },
                message: self.message,
                twilio_config: self.twilio_config,
            },
        }
    }
}

impl AppView {
    /// Each text of `sent`, with its date, is recorded in turn as typed here
    /// for contact `index`.
    pub open spec fn record_each(self, index: int, sent: Seq<(Seq<char>, Seq<char>)>) -> AppView
        decreases sent.len(),
    {
        if sent.len() == 0 {
            self
        } else {
            self.record_each(index, sent.drop_last()).record_outbound(
                index,
                sent.last().0,
                sent.last().1,
            )
        }
    }

    /// Each text of `received`, with its date, is recorded in turn as come
    /// in for contact `index`.
    pub open spec fn receive_each(self, index: int, received: Seq<(Seq<char>, Seq<char>)>)
        -> AppView
        decreases received.len(),
    {
        if received.len() == 0 {
            self
        } else {
            self.receive_each(index, received.drop_last()).with_message(
                index,
                inbound(received.last().0, received.last().1),
            )
        }
    }
}

/// An inbound message from a number that no contact has makes exactly one
/// new contact, at the end of the list: it has that number, no name, and the
/// message as its whole history, marked as not from here. The contacts that
/// were there, the highlight, the open conversation and the buffer stay.
pub proof fn lemma_upsert_unknown_number(
    s: AppView,
    text: Seq<char>,
    number: Seq<char>,
    date: Seq<char>,
)
    requires
        !has_number(s.contacts, number),
    ensures
        ({
            let t = s.upsert_inbound(text, number, date);
            &&& s.upsert_index(number) == s.contacts.len()
            &&& t.contacts.len() == s.contacts.len() + 1
            &&& t.contacts.drop_last() == s.contacts
            &&& t.contacts.last().number == number
            &&& t.contacts.last().name is None
            &&& t.contacts.last().messages == seq![inbound(text, date)]
            &&& !t.contacts.last().messages[0].from_self
            &&& t == s.with_contacts(t.contacts)
        }),
{
}

/// An inbound message from a number that some contact has is added at the
/// end of the history of the first such contact. No contact is added, no
/// other contact changes, and no number or name changes.
pub proof fn lemma_upsert_known_number(
    s: AppView,
    text: Seq<char>,
    number: Seq<char>,
    date: Seq<char>,
)
    requires
        has_number(s.contacts, number),
    ensures
        ({
            let t = s.upsert_inbound(text, number, date);
            let i = s.upsert_index(number);
            &&& is_first_with_number(s.contacts, number, i)
            &&& t.contacts.len() == s.contacts.len()
            &&& t.contacts[i].messages == s.contacts[i].messages.push(inbound(text, date))
            &&& forall|j: int|
                0 <= j < s.contacts.len() ==> (#[trigger] t.contacts[j]).number
                    == s.contacts[j].number && t.contacts[j].name == s.contacts[j].name
            &&& forall|j: int|
                0 <= j < s.contacts.len() && j != i ==> #[trigger] t.contacts[j] == s.contacts[j]
            &&& t == s.with_message(i, inbound(text, date))
        }),
{
    lemma_position_found(s.contacts, number);
}

/// Inbound messages never make two contacts share a number: where all
/// numbers differed before, they differ after.
pub proof fn lemma_upsert_keeps_numbers_distinct(
    s: AppView,
    text: Seq<char>,
    number: Seq<char>,
    date: Seq<char>,
)
    requires
        numbers_distinct(s.contacts),
    ensures
        numbers_distinct(s.upsert_inbound(text, number, date).contacts),
{
    if has_number(s.contacts, number) {
        lemma_upsert_known_number(s, text, number, date);
    } else {
        lemma_upsert_unknown_number(s, text, number, date);
    }
}

/// Messages recorded in turn for one contact extend its history in that
/// order, and nothing else.
pub proof fn lemma_record_each(s: AppView, index: int, sent: Seq<(Seq<char>, Seq<char>)>)
    requires
        0 <= index < s.contacts.len(),
    ensures
        ({
            let t = s.record_each(index, sent);
            &&& t.contacts.len() == s.contacts.len()
            &&& t.contacts[index].messages == s.contacts[index].messages + sent.map_values(
                |m: (Seq<char>, Seq<char>)| outbound(m.0, m.1),
            )
            &&& t == s.with_contacts(t.contacts)
        }),
    decreases sent.len(),
{
    if sent.len() > 0 {
        lemma_record_each(s, index, sent.drop_last());
    }
}

/// Messages received in turn for one contact extend its history in that
/// order, and nothing else.
pub proof fn lemma_receive_each(s: AppView, index: int, received: Seq<(Seq<char>, Seq<char>)>)
    requires
        0 <= index < s.contacts.len(),
    ensures
        ({
            let t = s.receive_each(index, received);
            &&& t.contacts.len() == s.contacts.len()
            &&& t.contacts[index].messages == s.contacts[index].messages + received.map_values(
                |m: (Seq<char>, Seq<char>)| inbound(m.0, m.1),
            )
            &&& t == s.with_contacts(t.contacts)
        }),
    decreases received.len(),
{
    if received.len() > 0 {
        lemma_receive_each(s, index, received.drop_last());
    }
}

/// After `sent.len()` messages typed here and then `received.len()` messages
/// that came in, all for one contact, its history is what it was, then the
/// typed ones in their order, each marked as from here, then the received
/// ones in their order, each marked as not from here: as many more as the
/// two counts together.
pub proof fn lemma_outbound_then_inbound(
    s: AppView,
    index: int,
    sent: Seq<(Seq<char>, Seq<char>)>,
    received: Seq<(Seq<char>, Seq<char>)>,
)
    requires
        0 <= index < s.contacts.len(),
    ensures
        ({
            let before = s.contacts[index].messages;
            let after = s.record_each(index, sent).receive_each(
                index,
                received,
            ).contacts[index].messages;
            &&& after.len() == before.len() + sent.len() + received.len()
            &&& after.subrange(0, before.len() as int) == before
            &&& forall|k: int|
                0 <= k < sent.len() ==> #[trigger] after[before.len() + k] == outbound(
                    sent[k].0,
                    sent[k].1,
                )
            &&& forall|k: int|
                0 <= k < received.len() ==> #[trigger] after[before.len() + sent.len() + k]
                    == inbound(received[k].0, received[k].1)
        }),
{
    lemma_record_each(s, index, sent);
    lemma_receive_each(s.record_each(index, sent), index, received);
}

/// Storing the contacts and loading them again into the same session gives
/// the session back, and into a fresh session gives the same contacts.
pub proof fn lemma_load_what_was_stored(s: AppView, fresh: TwilioConfigView)
    requires
        s.wf(),
    ensures
        s.load(Some(s.contacts)) == s,
        AppView::start(fresh).load(Some(s.contacts)).contacts == s.contacts,
{
}

/// Where nothing was stored, loading changes nothing: a fresh session stays
/// without contacts.
pub proof fn lemma_load_nothing(s: AppView, fresh: TwilioConfigView)
    ensures
        s.load(None) == s,
        AppView::start(fresh).load(None).contacts.len() == 0,
{
}

/// The views of stored contacts, where there are any.
pub open spec fn stored_view(stored: Option<Vec<Contact>>) -> Option<Seq<ContactView>> {
    match stored {
        Some(items) => Some(items@.map_values(|c: Contact| c@)),
        None => None,
    }
}

impl ContactList {
    /// The first contact with this number, if there is one.
    pub fn position(&self, number: &String) -> (found: Option<usize>)
        ensures
            match found {
                Some(i) => position_of(self@, number@) == Some(i as int),
                None => position_of(self@, number@) is None,
            },
            found matches Some(i) ==> is_first_with_number(self@, number@, i as int),
            found is None ==> !has_number(self@, number@),
    {
        let mut i: usize = 0;
        while i < self.items.len()
            invariant
                i <= self.items.len(),
                forall|j: int| 0 <= j < i ==> (#[trigger] self@[j]).number != number@,
            decreases self.items.len() - i,
        {
            if self.items[i].number == *number {
                proof {
                    lemma_position_of(self@, number@, i as int);
                }
                return Some(i);
            }
            i += 1;
        }
        None
    }
}

impl App {
    /// The indices this state holds are rows of its contact list.
    pub open spec fn wf(&self) -> bool {
        self@.wf()
    }

    /// Whether the indices this state holds are rows of its contact list.
    pub fn is_wf(&self) -> (ok: bool)
        ensures
            ok == self.wf(),
    {
        let len = self.contact_list.items.len();
        let selected_ok = match self.contact_list.selected {
            Some(i) => i < len,
            None => true,
        };
        let open_ok = match self.curr_contact {
            Some(i) => i < len,
            None => true,
        };
        selected_ok && open_ok
    }

    /// A session with no contacts, nothing highlighted, no conversation open
    /// and nothing typed.
    pub fn new(twilio_config: TwilioConfig) -> (app: App)
        ensures
            app@ == AppView::start(twilio_config@),
            app.wf(),
    {
        App {
            contact_list: ContactList { items: Vec::new(), selected: None },
            curr_contact: None,
            message: String::new(),
            twilio_config,
        }
    }

    /// Adds a contact without messages at the end of the list. The number is
    /// not looked up first: a number that is already there gets a second
    /// entry.
    pub fn new_contact(&mut self, number: String, name: Option<String>)
        ensures
            final(self)@ == old(self)@.add_contact(number@, text_of(name)),
            old(self).wf() ==> final(self).wf(),
    {
        self.contact_list.items.push(Contact::new(number, name));
    }

    /// Records an inbound message, dated `date`, with contact `contact_index`.
    pub fn recieve_message_at(&mut self, text: String, contact_index: usize, date: String)
        requires
            contact_index < old(self).contact_list.items.len(),
        ensures
            final(self)@ == old(self)@.with_message(contact_index as int, inbound(text@, date@)),
            old(self).wf() ==> final(self).wf(),
    {
        let contact = &mut self.contact_list.items[contact_index];
        contact.push_message(Message::received(text, date));
    }

    /// Records an inbound message with contact `contact_index`, dated by the
    /// clock.
    pub fn recieve_message(&mut self, text: String, contact_index: usize)
        requires
            contact_index < old(self).contact_list.items.len(),
        ensures
            exists|date: Seq<char>|
                is_date_text(date) && final(self)@ == #[trigger] old(self)@.with_message(
                    contact_index as int,
                    inbound(text@, date),
                ),
            old(self).wf() ==> final(self).wf(),
    {
        let date = timestamp();
        self.recieve_message_at(text, contact_index, date);
    }

    /// Records an inbound message from `number`, dated `date`: with the first
    /// contact that has the number, else with a new nameless contact at the
    /// end of the list. Returns the row of that contact.
    pub fn peepee_poopoo_at(&mut self, text: String, number: String, date: String) -> (index: usize)
        ensures
            final(self)@ == old(self)@.upsert_inbound(text@, number@, date@),
            index == old(self)@.upsert_index(number@),
            index < final(self)@.contacts.len(),
            old(self).wf() ==> final(self).wf(),
    {
        match self.contact_list.position(&number) {
            Some(index) => {
                self.recieve_message_at(text, index, date);
                index
            },
            None => {
                self.new_contact(number, None);
                assert(self.contact_list.items@.len() == self@.contacts.len());
                let index = self.contact_list.items.len() - 1;
                self.recieve_message_at(text, index, date);
                index
            },
        }
    }

    /// Records an inbound message from `number`, dated by the clock. Returns
    /// the row of the contact it went to.
    pub fn peepee_poopoo(&mut self, text: String, number: String) -> (index: usize)
        ensures
            exists|date: Seq<char>|
                is_date_text(date) && final(self)@ == #[trigger] old(self)@.upsert_inbound(
                    text@,
                    number@,
                    date,
                ),
            index == old(self)@.upsert_index(number@),
            index < final(self)@.contacts.len(),
            old(self).wf() ==> final(self).wf(),
    {
        let date = timestamp();
        self.peepee_poopoo_at(text, number, date)
    }

    /// Records a message typed here, dated `date`, with contact
    /// `contact_index`, and returns it.
    pub fn record_outbound_at(
        &mut self,
        contact_index: usize,
        text: String,
        date: String,
    ) -> (message: Message)
        requires
            contact_index < old(self).contact_list.items.len(),
        ensures
            final(self)@ == old(self)@.record_outbound(contact_index as int, text@, date@),
            message@ == outbound(text@, date@),
            old(self).wf() ==> final(self).wf(),
    {
        let message = Message::sent(text, date);
        let copy = message.duplicate();
        let contact = &mut self.contact_list.items[contact_index];
        contact.push_message(message);
        copy
    }

    /// Records the buffer as a message to the open conversation, dated
    /// `date`, empties the buffer, and returns the request that delivers the
    /// message.
    pub fn send_message_at(&mut self, date: String) -> (request: FormPost)
        requires
            old(self).curr_contact matches Some(i) && i < old(self).contact_list.items.len(),
        ensures
            final(self)@ == old(self)@.send(date@),
            request@ == old(self)@.send_request(),
            old(self).wf() ==> final(self).wf(),
    {
        let index = match self.curr_contact {
            Some(i) => i,
            None => 0,
        };
        let request = send_msg(
            &self.twilio_config,
            self.message.as_str(),
            self.contact_list.items[index].number.as_str(),
        );
        let text = self.message.clone();
        let _ = self.record_outbound_at(index, text, date);
        self.message = String::new();
        request
    }

    /// Records the buffer as a message to the open conversation, dated by the
    /// clock, empties the buffer, and returns the request that delivers the
    /// message.
    pub fn send_message(&mut self) -> (request: FormPost)
        requires
            old(self).curr_contact matches Some(i) && i < old(self).contact_list.items.len(),
        ensures
            exists|date: Seq<char>|
                is_date_text(date) && final(self)@ == #[trigger] old(self)@.send(date),
            request@ == old(self)@.send_request(),
            old(self).wf() ==> final(self).wf(),
    {
        let date = timestamp();
        self.send_message_at(date)
    }

    /// Records a message typed here with contact `contact_index`, dated by
    /// the clock, and returns it.
    pub fn record_outbound(&mut self, contact_index: usize, text: String) -> (message: Message)
        requires
            contact_index < old(self).contact_list.items.len(),
        ensures
            exists|date: Seq<char>|
                is_date_text(date) && final(self)@ == #[trigger] old(self)@.record_outbound(
                    contact_index as int,
                    text@,
                    date,
                ) && message@ == outbound(text@, date),
            old(self).wf() ==> final(self).wf(),
    {
        let date = timestamp();
        self.record_outbound_at(contact_index, text, date)
    }

    /// Moves the highlight to `index`, held to the list: to no row on an
    /// empty list, to the last row where `index` lies past the end.
    pub fn select(&mut self, index: Option<usize>)
        ensures
            final(self)@ == old(self)@.select(held_to(index, old(self)@.contacts.len())),
            old(self).wf() ==> final(self).wf(),
    {
        self.contact_list.selected = hold_to(index, self.contact_list.items.len());
    }

    /// Opens conversation `index`. An index that is no row of the list
    /// changes nothing.
    pub fn open(&mut self, index: usize)
        ensures
            final(self)@ == (if index < old(self)@.contacts.len() {
                old(self)@.open(index)
            } else {
                old(self)@
            }),
            old(self).wf() ==> final(self).wf(),
    {
        if index < self.contact_list.items.len() {
            self.curr_contact = Some(index);
        }
    }

    /// Opens the highlighted conversation. Nothing happens while no row is
    /// highlighted.
    pub fn open_selected_contact(&mut self)
        ensures
            final(self)@ == old(self)@.open_selected(),
            old(self).wf() ==> final(self).wf(),
    {
        if let Some(index) = self.contact_list.selected {
            self.curr_contact = Some(index);
        }
    }

    /// Leaves the open conversation. The highlight and the buffer stay as
    /// they are.
    pub fn close(&mut self)
        ensures
            final(self)@ == old(self)@.close(),
            old(self).wf() ==> final(self).wf(),
    {
        self.curr_contact = None;
    }

    /// Moves the highlight one row down.
    pub fn select_next(&mut self)
        ensures
            final(self)@ == old(self)@.select_next(),
            old(self).wf() ==> final(self).wf(),
    {
        self.contact_list.selected = step_down(
            self.contact_list.selected,
            self.contact_list.items.len(),
        );
    }

    /// Moves the highlight one row up.
    pub fn select_previous(&mut self)
        ensures
            final(self)@ == old(self)@.select_previous(),
            old(self).wf() ==> final(self).wf(),
    {
        self.contact_list.selected = step_up(
            self.contact_list.selected,
            self.contact_list.items.len(),
        );
    }

    /// The contacts as they are to be stored.
    pub fn save_data(&self) -> (contacts: &Vec<Contact>)
        ensures
            contacts@.map_values(|c: Contact| c@) == self@.contacts,
    {
        &self.contact_list.items
    }

    /// Takes over what was stored: `None` where there was no file, which
    /// leaves the session as it is.
    pub fn load_data(&mut self, stored: Option<Vec<Contact>>)
        ensures
            final(self)@ == old(self)@.load(stored_view(stored)),
            old(self).wf() ==> final(self).wf(),
    {
        match stored {
            None => {},
            Some(items) => {
                let len = items.len();
                self.contact_list.items = items;
                self.contact_list.selected = match self.contact_list.selected {
                    Some(i) => if i < len {
                        Some(i)
                    } else {
                        None
                    },
                    None => None,
                };
                self.curr_contact = match self.curr_contact {
                    Some(i) => if i < len {
                        Some(i)
                    } else {
                        None
                    },
                    None => None,
                };
            },
        }
    }
}

} // verus!
