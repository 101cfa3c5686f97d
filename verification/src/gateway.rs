//! The requests this client makes of the messaging API. They are built here
//! as plain values; whoever holds the network connection performs them.

use vstd::prelude::*;
use vstd::string::*;

verus! {

/// The account on whose behalf messages are sent and received.
#[derive(Clone, Debug, PartialEq, Eq)]
pub struct TwilioConfig {
    pub twilio_account_sid: String,
    pub twilio_auth_token: String,
    /// The number that outbound messages are sent from.
    pub twilio_number: String,
    /// The API's identifier of that number.
    pub twilio_number_sid: String,
}

/// What a [`TwilioConfig`] stands for in contracts.
#[verifier::ext_equal]
pub struct TwilioConfigView {
    pub account_sid: Seq<char>,
    pub auth_token: Seq<char>,
    pub number: Seq<char>,
    pub number_sid: Seq<char>,
}

impl View for TwilioConfig {
    type V = TwilioConfigView;

    open spec fn view(&self) -> TwilioConfigView {
        TwilioConfigView {
            account_sid: self.twilio_account_sid@,
            auth_token: self.twilio_auth_token@,
            number: self.twilio_number@,
            number_sid: self.twilio_number_sid@,
        }
    }
}

impl TwilioConfig {
    /// A copy with the same four entries.
    pub fn duplicate(&self) -> (copy: TwilioConfig)
        ensures
            copy@ == self@,
    {
        TwilioConfig {
            twilio_account_sid: self.twilio_account_sid.clone(),
            twilio_auth_token: self.twilio_auth_token.clone(),
            twilio_number: self.twilio_number.clone(),
            twilio_number_sid: self.twilio_number_sid.clone(),
        }
    }
}

/// One name and value of a form.
#[derive(Clone, Debug, PartialEq, Eq)]
pub struct FormField {
    pub name: String,
    pub value: String,
}

impl View for FormField {
    type V = (Seq<char>, Seq<char>);

    open spec fn view(&self) -> (Seq<char>, Seq<char>) {
        (self.name@, self.value@)
    }
}

/// An HTTP POST of a url-encoded form under basic authentication.
#[derive(Clone, Debug, PartialEq, Eq)]
pub struct FormPost {
    pub url: String,
    pub username: String,
    pub password: String,
    pub fields: Vec<FormField>,
}

/// What a [`FormPost`] stands for in contracts.
#[verifier::ext_equal]
pub struct FormPostView {
    pub url: Seq<char>,
    pub username: Seq<char>,
    pub password: Seq<char>,
    pub fields: Seq<(Seq<char>, Seq<char>)>,
}

impl View for FormPost {
    type V = FormPostView;

    open spec fn view(&self) -> FormPostView {
        FormPostView {
            url: self.url@,
            username: self.username@,
            password: self.password@,
            fields: self.fields@.map_values(|f: FormField| f@),
        }
    }
}

/// Where every resource of an account lives.
pub open spec fn account_url(account_sid: Seq<char>) -> Seq<char> {
    "https://api.twilio.com/2010-04-01/Accounts/"@ + account_sid
}

/// The request that sends `msg` to `to_number`.
pub open spec fn send_msg_request(twilio: TwilioConfigView, msg: Seq<char>, to_number: Seq<char>)
    -> FormPostView {
    FormPostView {
        url: account_url(twilio.account_sid) + "/Messages.json"@,
        username: twilio.account_sid,
        password: twilio.auth_token,
        fields: seq![("Body"@, msg), ("From"@, twilio.number), ("To"@, to_number)],
    }
}

/// The request that makes `sms_url` the address to which the API delivers
/// the messages that arrive for the account's number.
pub open spec fn webhook_request(twilio: TwilioConfigView, sms_url: Seq<char>) -> FormPostView {
    FormPostView {
        url: account_url(twilio.account_sid) + "/IncomingPhoneNumbers/"@ + twilio.number_sid
            + ".json"@,
        username: twilio.account_sid,
        password: twilio.auth_token,
        fields: seq![("SmsUrl"@, sms_url)],
    }
}

fn field(name: &str, value: &str) -> (f: FormField)
    ensures
        f@ == (name@, value@),
{
    FormField { name: name.to_owned(), value: value.to_owned() }
}

/// Builds the request that sends the text `msg` from the account's number to
/// `to_number`.
pub fn send_msg(twilio: &TwilioConfig, msg: &str, to_number: &str) -> (request: FormPost)
    ensures
        request@ == send_msg_request(twilio@, msg@, to_number@),
{
    let mut url = "https://api.twilio.com/2010-04-01/Accounts/".to_owned();
    url.append(twilio.twilio_account_sid.as_str());
    url.append("/Messages.json");
    let mut fields: Vec<FormField> = Vec::new();
    fields.push(field("Body", msg));
    fields.push(field("From", twilio.twilio_number.as_str()));
    fields.push(field("To", to_number));
    FormPost {
        url,
        username: twilio.twilio_account_sid.clone(),
        password: twilio.twilio_auth_token.clone(),
        fields,
    }
}

/// Builds the request that registers `ngrok_url` as the place where inbound
/// messages are delivered.
pub fn set_twilio_webhook(twilio_creds: &TwilioConfig, ngrok_url: &str) -> (request: FormPost)
    ensures
        request@ == webhook_request(twilio_creds@, ngrok_url@),
{
    let mut url = "https://api.twilio.com/2010-04-01/Accounts/".to_owned();
    url.append(twilio_creds.twilio_account_sid.as_str());
    url.append("/IncomingPhoneNumbers/");
    url.append(twilio_creds.twilio_number_sid.as_str());
    url.append(".json");
    let mut fields: Vec<FormField> = Vec::new();
    fields.push(field("SmsUrl", ngrok_url));
    FormPost {
        url,
        username: twilio_creds.twilio_account_sid.clone(),
        password: twilio_creds.twilio_auth_token.clone(),
        fields,
    }
}

} // verus!
