//! The credentials this client needs, taken from the text of its
//! configuration file.

use vstd::prelude::*;

use crate::contact::text_of;
use crate::gateway::{TwilioConfig, TwilioConfigView};

verus! {

/// Why the configuration could not be used.
#[derive(Clone, Debug, PartialEq, Eq)]
pub enum ConfigError {
    /// The text is not a configuration file; the parser's words are kept.
    Malformed(String),
    /// The text has no value under this section and key.
    Missing { section: String, key: String },
}

/// What a [`ConfigError`] stands for in contracts. The parser's words are
/// left out.
#[verifier::ext_equal]
pub enum ConfigErrorView {
    Malformed,
    Missing { section: Seq<char>, key: Seq<char> },
}

impl View for ConfigError {
    type V = ConfigErrorView;

    open spec fn view(&self) -> ConfigErrorView {
        match self {
            ConfigError::Malformed(_) => ConfigErrorView::Malformed,
            ConfigError::Missing { section, key } => ConfigErrorView::Missing {
                section: section@,
                key: key@,
            },
        }
    }
}

/// What `configparser` makes of `text` under `section` and `key`, read with
/// the settings of `Ini::new()`: `None` where it rejects the text, else the
/// value that `Ini::get` hands out, if there is one.
pub uninterp spec fn ini_value(text: Seq<char>, section: Seq<char>, key: Seq<char>) -> Option<Option<Seq<char>>>;

/// Parses `text` with `configparser::ini::Ini::read` on a fresh `Ini::new()`
/// and looks `key` up in `section` with `Ini::get`.
///
/// The parser's error comes back as it is. The outcome depends on the three
/// texts alone, which is all the contract says: it is `ini_value` of them.
#[verifier::external_body]
fn ini_lookup(text: &str, section: &str, key: &str) -> (entry: Result<Option<String>, String>)
    ensures
        match entry {
            Ok(value) => ini_value(text@, section@, key@) == Some(text_of(value)),
            Err(_) => ini_value(text@, section@, key@) is None,
        },
{
    let mut config = configparser::ini::Ini::new();
    match config.read(text.to_owned()) {
        Ok(_) => Ok(config.get(section, key)),
        Err(why) => Err(why),
    }
}

/// The value that must stand under `section` and `key`, given what the
/// lookup found.
pub open spec fn required_entry(
    found: Option<Option<Seq<char>>>,
    section: Seq<char>,
    key: Seq<char>,
) -> Result<Seq<char>, ConfigErrorView> {
    match found {
        None => Err(ConfigErrorView::Malformed),
        Some(None) => Err(ConfigErrorView::Missing { section, key }),
        Some(Some(value)) => Ok(value),
    }
}

/// What a lookup returned, as `required_entry` takes it.
pub open spec fn found_view(entry: Result<Option<String>, String>) -> Option<Option<Seq<char>>> {
    match entry {
        Ok(value) => Some(text_of(value)),
        Err(_) => None,
    }
}

/// The view of a result whose two sides have views.
pub open spec fn result_view<T: View, E: View>(r: Result<T, E>) -> Result<T::V, E::V> {
    match r {
        Ok(t) => Ok(t@),
        Err(e) => Err(e@),
    }
}

/// Turns the outcome of a lookup into the value that is required there, or
/// into the reason why there is none.
pub fn require_entry(
    entry: Result<Option<String>, String>,
    section: &str,
    key: &str,
) -> (value: Result<String, ConfigError>)
    ensures
        result_view(value) == required_entry(found_view(entry), section@, key@),
        value matches Err(ConfigError::Malformed(words)) ==> entry == Err::<Option<String>, String>(
            words,
        ),
{
    match entry {
        Err(why) => Err(ConfigError::Malformed(why)),
        Ok(None) => Err(ConfigError::Missing { section: section.to_owned(), key: key.to_owned() }),
        Ok(Some(value)) => Ok(value),
    }
}

/// The value that `text` must hold under `section` and `key`.
pub open spec fn entry_of(text: Seq<char>, section: Seq<char>, key: Seq<char>) -> Result<
    Seq<char>,
    ConfigErrorView,
> {
    required_entry(ini_value(text, section, key), section, key)
}

fn entry(text: &str, section: &str, key: &str) -> (value: Result<String, ConfigError>)
    ensures
        result_view(value) == entry_of(text@, section@, key@),
{
    require_entry(ini_lookup(text, section, key), section, key)
}

/// The tunnel's authentication token: the value of `auth_token` in section
/// `ngrok`.
pub open spec fn ngrok_authtoken_of(text: Seq<char>) -> Result<Seq<char>, ConfigErrorView> {
    entry_of(text, "ngrok"@, "auth_token"@)
}

/// The account's four entries, all from section `twilio`: `account_sid`,
/// `auth_token`, `from_num` and `from_num_sid`. The first that cannot be had
/// decides the error.
pub open spec fn twilio_config_of(text: Seq<char>) -> Result<TwilioConfigView, ConfigErrorView> {
    match entry_of(text, "twilio"@, "account_sid"@) {
        Err(e) => Err(e),
        Ok(account_sid) => match entry_of(text, "twilio"@, "auth_token"@) {
            Err(e) => Err(e),
            Ok(auth_token) => match entry_of(text, "twilio"@, "from_num"@) {
                Err(e) => Err(e),
                Ok(number) => match entry_of(text, "twilio"@, "from_num_sid"@) {
                    Err(e) => Err(e),
                    Ok(number_sid) => Ok(
                        TwilioConfigView { account_sid, auth_token, number, number_sid },
                    ),
                },
            },
        },
    }
}

/// Reads the tunnel's authentication token from the text of the
/// configuration file.
pub fn get_ngrok_authtoken(conf_text: &str) -> (token: Result<String, ConfigError>)
    ensures
        result_view(token) == ngrok_authtoken_of(conf_text@),
{
    entry(conf_text, "ngrok", "auth_token")
}

/// Reads the account's credentials from the text of the configuration file.
pub fn load_twilio_configs(conf_text: &str) -> (config: Result<TwilioConfig, ConfigError>)
    ensures
        result_view(config) == twilio_config_of(conf_text@),
{
    let twilio_account_sid = match entry(conf_text, "twilio", "account_sid") {
        Ok(value) => value,
        Err(e) => { return Err(e); },
    };
    let twilio_auth_token = match entry(conf_text, "twilio", "auth_token") {
        Ok(value) => value,
        Err(e) => { return Err(e); },
    };
    let twilio_number = match entry(conf_text, "twilio", "from_num") {
        Ok(value) => value,
        Err(e) => { return Err(e); },
    };
    let twilio_number_sid = match entry(conf_text, "twilio", "from_num_sid") {
        Ok(value) => value,
        Err(e) => { return Err(e); },
    };
    Ok(TwilioConfig { twilio_account_sid, twilio_auth_token, twilio_number, twilio_number_sid })
}

} // verus!
