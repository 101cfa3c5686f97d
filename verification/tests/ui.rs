use sms_chat::contact::{Contact, Message};
use sms_chat::gateway::TwilioConfig;
use sms_chat::store::App;
use sms_chat::text::{pad_end, pad_start, push_decimal, to_decimal};
use sms_chat::ui::{
    render_body_contacts, render_body_messages, render_footer, render_header, ui, Body,
    ContactRow, MessageRow, CHAT_HINT, LIST_HINT,
};

fn config() -> TwilioConfig {
    TwilioConfig {
        twilio_account_sid: "AC123".to_string(),
        twilio_auth_token: "token".to_string(),
        twilio_number: "+1000".to_string(),
        twilio_number_sid: "PN456".to_string(),
    }
}

fn sample() -> App {
    let mut app = App::new(config());
    app.load_data(Some(vec![
        Contact {
            number: "+15551234".to_string(),
            name: Some("Zoë".to_string()),
            messages: vec![
                Message {
                    from_self: true,
                    text: "hi".to_string(),
                    date: "Jan 01 10:00 AM".to_string(),
                },
                Message {
                    from_self: false,
                    text: "hello".to_string(),
                    date: "Jan 01 10:01 AM".to_string(),
                },
            ],
        },
        Contact { number: "+15559".to_string(), name: None, messages: vec![] },
    ]));
    app
}

#[test]
fn decimal_values() {
    assert_eq!(to_decimal(0), "0");
    assert_eq!(to_decimal(7), "7");
    assert_eq!(to_decimal(10), "10");
    assert_eq!(to_decimal(109), "109");
    assert_eq!(to_decimal(12345), "12345");
    assert_eq!(to_decimal(usize::MAX), usize::MAX.to_string());
    let mut out = "n=".to_string();
    push_decimal(&mut out, 42);
    assert_eq!(out, "n=42");
}

#[test]
fn padding_counts_characters() {
    assert_eq!(pad_end("ab", 5), "ab   ");
    assert_eq!(pad_end("abcde", 5), "abcde");
    assert_eq!(pad_end("abcdef", 5), "abcdef");
    assert_eq!(pad_end("", 3), "   ");
    assert_eq!(pad_end("é", 3), format!("{:<3}", "é"));
    assert_eq!(pad_start("ab", 5), "   ab");
    assert_eq!(pad_start("abcdef", 5), "abcdef");
    assert_eq!(pad_start("é", 3), format!("{:>3}", "é"));
    assert_eq!(pad_start("", 0), "");
}

#[test]
fn header_counts_contacts() {
    assert_eq!(render_header(&App::new(config())), "sms-chat: 0 contacts");
    assert_eq!(render_header(&sample()), "sms-chat: 2 contacts");
}

#[test]
fn contact_rows_are_padded() {
    let rows = render_body_contacts(&sample());
    assert_eq!(
        rows,
        vec![
            ContactRow {
                number: format!(" {:<16}", "+15551234"),
                name: format!("{:<16}", "Zoë"),
                count: "2 messages".to_string(),
            },
            ContactRow {
                number: " +15559          ".to_string(),
                name: "                ".to_string(),
                count: "0 messages".to_string(),
            },
        ]
    );
}

#[test]
fn message_rows_name_the_sender() {
    let mut app = sample();
    app.open(0);
    let rows = render_body_messages(&app);
    assert_eq!(
        rows,
        vec![
            MessageRow {
                date: "Jan 01 10:00 AM ".to_string(),
                sender: " You: ".to_string(),
                text: "hi".to_string(),
                from_self: true,
            },
            MessageRow {
                date: "Jan 01 10:01 AM ".to_string(),
                sender: " Zoë: ".to_string(),
                text: "hello".to_string(),
                from_self: false,
            },
        ]
    );
    let mut app = sample();
    app.recieve_message_at("x".to_string(), 1, "d".to_string());
    app.open(1);
    let rows = render_body_messages(&app);
    assert_eq!(rows[0].sender, "+15559: ");
    assert_eq!(rows[0].date, format!("{:<16}", "d"));
}

#[test]
fn footer_shows_buffer_or_hint() {
    let mut app = sample();
    assert_eq!(render_footer(&app), LIST_HINT);
    assert_eq!(
        render_footer(&app),
        "(Esc) / (q), (Up) & (Down), (Enter) -- Type to add a new number"
    );
    app.open(0);
    assert_eq!(render_footer(&app), CHAT_HINT);
    assert_eq!(render_footer(&app), "(Esc), Type & (Enter)");
    app.message = "typing".to_string();
    assert_eq!(render_footer(&app), "typing");
    app.close();
    assert_eq!(render_footer(&app), "typing");
}

#[test]
fn screen_follows_the_mode() {
    let mut app = sample();
    app.select(Some(1));
    let screen = ui(&app);
    assert_eq!(screen.header, "sms-chat: 2 contacts");
    assert_eq!(screen.footer, LIST_HINT);
    match screen.body {
        Body::Contacts { rows, selected } => {
            assert_eq!(rows.len(), 2);
            assert_eq!(selected, Some(1));
        }
        other => panic!("expected the contact list, got {:?}", other),
    }
    app.open(0);
    let screen = ui(&app);
    assert_eq!(screen.body, Body::Messages(render_body_messages(&app)));
    assert_eq!(screen.footer, CHAT_HINT);
}
