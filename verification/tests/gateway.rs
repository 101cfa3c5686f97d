use sms_chat::gateway::{send_msg, set_twilio_webhook, FormField, TwilioConfig};

fn config() -> TwilioConfig {
    TwilioConfig {
        twilio_account_sid: "ACabc".to_string(),
        twilio_auth_token: "s3".to_string(),
        twilio_number: "+15550001".to_string(),
        twilio_number_sid: "PNxyz".to_string(),
    }
}

#[test]
fn send_msg_builds_the_message_post() {
    let request = send_msg(&config(), "hello there", "+15559999");
    assert_eq!(request.url, "https://api.twilio.com/2010-04-01/Accounts/ACabc/Messages.json");
    assert_eq!(request.username, "ACabc");
    assert_eq!(request.password, "s3");
    assert_eq!(
        request.fields,
        vec![
            FormField { name: "Body".to_string(), value: "hello there".to_string() },
            FormField { name: "From".to_string(), value: "+15550001".to_string() },
            FormField { name: "To".to_string(), value: "+15559999".to_string() },
        ]
    );
}

#[test]
fn webhook_post_names_the_number() {
    let request = set_twilio_webhook(&config(), "https://abc.ngrok.app");
    assert_eq!(
        request.url,
        "https://api.twilio.com/2010-04-01/Accounts/ACabc/IncomingPhoneNumbers/PNxyz.json"
    );
    assert_eq!(request.username, "ACabc");
    assert_eq!(request.password, "s3");
    assert_eq!(
        request.fields,
        vec![FormField { name: "SmsUrl".to_string(), value: "https://abc.ngrok.app".to_string() }]
    );
}

#[test]
fn config_duplicate_is_equal() {
    assert_eq!(config().duplicate(), config());
}
