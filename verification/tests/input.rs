use sms_chat::gateway::TwilioConfig;
use sms_chat::input::{Action, KeyCode, KeyEvent, KeyEventKind};
use sms_chat::store::App;

fn config() -> TwilioConfig {
    TwilioConfig {
        twilio_account_sid: "AC123".to_string(),
        twilio_auth_token: "token".to_string(),
        twilio_number: "+1000".to_string(),
        twilio_number_sid: "PN456".to_string(),
    }
}

fn press(code: KeyCode) -> KeyEvent {
    KeyEvent { code, kind: KeyEventKind::Press }
}

fn date() -> String {
    "Mar 03 03:03 PM".to_string()
}

fn app_with(numbers: &[&str]) -> App {
    let mut app = App::new(config());
    for n in numbers {
        app.new_contact(n.to_string(), None);
    }
    app
}

#[test]
fn enter_on_list_opens_highlighted_then_escape_returns() {
    let mut app = app_with(&["+1", "+2"]);
    app.select(Some(1));
    let action = app.handle_event(press(KeyCode::Enter), date());
    assert_eq!(action, Action::Continue);
    assert_eq!(app.curr_contact, Some(1));
    let action = app.handle_event(press(KeyCode::Esc), date());
    assert_eq!(action, Action::Continue);
    assert_eq!(app.curr_contact, None);
    assert_eq!(app.contact_list.selected, Some(1));
}

#[test]
fn release_and_repeat_change_nothing() {
    let mut app = app_with(&["+1"]);
    app.select(Some(0));
    app.message = "555".to_string();
    let before = app.clone();
    for kind in [KeyEventKind::Release, KeyEventKind::Repeat] {
        for code in [
            KeyCode::Enter,
            KeyCode::Esc,
            KeyCode::Char('x'),
            KeyCode::Backspace,
            KeyCode::Up,
            KeyCode::Down,
            KeyCode::Other,
        ] {
            let action = app.handle_event(KeyEvent { code, kind }, date());
            assert_eq!(action, Action::Continue);
            assert_eq!(app, before);
        }
    }
    app.curr_contact = Some(0);
    let before = app.clone();
    let action =
        app.handle_event(KeyEvent { code: KeyCode::Enter, kind: KeyEventKind::Release }, date());
    assert_eq!(action, Action::Continue);
    assert_eq!(app, before);
    assert_eq!(app.message, "555");
}

#[test]
fn list_keys_quit() {
    let mut app = app_with(&["+1"]);
    app.message = "12".to_string();
    let before = app.clone();
    assert_eq!(app.handle_key(KeyCode::Esc, date()), Action::Quit);
    assert_eq!(app.handle_key(KeyCode::Char('q'), date()), Action::Quit);
    assert_eq!(app, before);
}

#[test]
fn typing_on_list_then_enter_adds_contact() {
    let mut app = app_with(&["+1555"]);
    for ch in "+1555".chars() {
        assert_eq!(app.handle_key(KeyCode::Char(ch), date()), Action::Continue);
    }
    assert_eq!(app.handle_key(KeyCode::Char('9'), date()), Action::Continue);
    assert_eq!(app.message, "+15559");
    assert_eq!(app.handle_key(KeyCode::Backspace, date()), Action::Continue);
    assert_eq!(app.message, "+1555");
    assert_eq!(app.handle_key(KeyCode::Enter, date()), Action::Continue);
    assert_eq!(app.message, "");
    assert_eq!(app.curr_contact, None);
    assert_eq!(app.contact_list.items.len(), 2);
    assert_eq!(app.contact_list.items[1].number, "+1555");
    assert_eq!(app.contact_list.items[1].name, None);
    assert!(app.contact_list.items[1].messages.is_empty());
}

#[test]
fn backspace_on_empty_buffer_is_harmless() {
    let mut app = app_with(&[]);
    assert_eq!(app.handle_key(KeyCode::Backspace, date()), Action::Continue);
    assert_eq!(app.message, "");
    app.type_char('é');
    app.type_char('x');
    app.backspace();
    assert_eq!(app.message, "é");
    app.backspace();
    app.backspace();
    assert_eq!(app.message, "");
}

#[test]
fn arrows_move_highlight_on_list() {
    let mut app = app_with(&["+1", "+2"]);
    assert_eq!(app.handle_key(KeyCode::Down, date()), Action::Continue);
    assert_eq!(app.contact_list.selected, Some(0));
    app.handle_key(KeyCode::Down, date());
    app.handle_key(KeyCode::Down, date());
    assert_eq!(app.contact_list.selected, Some(1));
    app.handle_key(KeyCode::Up, date());
    assert_eq!(app.contact_list.selected, Some(0));
    app.handle_key(KeyCode::Up, date());
    assert_eq!(app.contact_list.selected, Some(0));
    let before = app.clone();
    assert_eq!(app.handle_key(KeyCode::Other, date()), Action::Continue);
    assert_eq!(app, before);
}

#[test]
fn enter_with_empty_buffer_and_no_highlight_does_nothing() {
    let mut app = app_with(&["+1"]);
    let before = app.clone();
    assert_eq!(app.handle_key(KeyCode::Enter, date()), Action::Continue);
    assert_eq!(app, before);
}

#[test]
fn message_mode_keys() {
    let mut app = app_with(&["+1", "+2"]);
    app.select(Some(1));
    app.open(1);
    assert_eq!(app.handle_key(KeyCode::Char('q'), date()), Action::Continue);
    assert_eq!(app.handle_key(KeyCode::Char('a'), date()), Action::Continue);
    assert_eq!(app.message, "qa");
    assert_eq!(app.handle_key(KeyCode::Backspace, date()), Action::Continue);
    assert_eq!(app.message, "q");
    assert_eq!(app.handle_key(KeyCode::Up, date()), Action::Continue);
    assert_eq!(app.handle_key(KeyCode::Down, date()), Action::Continue);
    assert_eq!(app.handle_key(KeyCode::Other, date()), Action::Continue);
    assert_eq!(app.contact_list.selected, Some(1));
    assert_eq!(app.curr_contact, Some(1));
    let action = app.handle_key(KeyCode::Enter, date());
    match action {
        Action::Send(request) => {
            assert_eq!(
                request.url,
                "https://api.twilio.com/2010-04-01/Accounts/AC123/Messages.json"
            );
            assert_eq!(request.fields[0].value, "q");
            assert_eq!(request.fields[2].value, "+2");
        }
        other => panic!("expected a send, got {:?}", other),
    }
    assert_eq!(app.message, "");
    assert_eq!(app.contact_list.items[1].messages.len(), 1);
    assert_eq!(app.contact_list.items[1].messages[0].text, "q");
    assert_eq!(app.contact_list.items[1].messages[0].date, "Mar 03 03:03 PM");
    assert!(app.contact_list.items[1].messages[0].from_self);
}

#[test]
fn escape_from_conversation_keeps_buffer() {
    let mut app = app_with(&["+1"]);
    app.open(0);
    app.message = "draft".to_string();
    assert_eq!(app.handle_key(KeyCode::Esc, date()), Action::Continue);
    assert_eq!(app.curr_contact, None);
    assert_eq!(app.message, "draft");
}

#[test]
fn tick_takes_inbound_before_key() {
    let mut app = app_with(&[]);
    let action = app.tick_at(
        Some(("hey".to_string(), "+7".to_string())),
        Some(press(KeyCode::Down)),
        date(),
    );
    assert_eq!(action, Action::Continue);
    assert_eq!(app.contact_list.items.len(), 1);
    assert_eq!(app.contact_list.items[0].messages[0].text, "hey");
    assert_eq!(app.contact_list.items[0].messages[0].date, "Mar 03 03:03 PM");
    assert_eq!(app.contact_list.selected, Some(0));
    let action = app.tick_at(None, None, date());
    assert_eq!(action, Action::Continue);
    let action = app.tick_at(None, Some(press(KeyCode::Esc)), date());
    assert_eq!(action, Action::Quit);
}

#[test]
fn tick_records_inbound_while_conversation_is_open() {
    let mut app = app_with(&["+1"]);
    app.open(0);
    let action = app.tick(Some(("yo".to_string(), "+2".to_string())), None);
    assert_eq!(action, Action::Continue);
    assert_eq!(app.curr_contact, Some(0));
    assert_eq!(app.contact_list.items.len(), 2);
    assert_eq!(app.contact_list.items[1].messages[0].text, "yo");
    assert!(!app.contact_list.items[1].messages[0].from_self);
    let action = app.tick(
        None,
        Some(KeyEvent { code: KeyCode::Char('z'), kind: KeyEventKind::Release }),
    );
    assert_eq!(action, Action::Continue);
    assert_eq!(app.message, "");
}
