//! The start-up configuration.

use vstd::prelude::*;
use vstd::string::*;
use crate::document::{Json, JsonView, parse_document, spec_parse_document};
use crate::error::ErrorKind;

verus! {

/// What the dashboard is started with: where the backend is and as whom to
/// ask it.
#[derive(Debug, PartialEq, Eq)]
pub struct Config {
    pub base_url: String,
    pub key: String,
    pub token: String,
}

/// The mathematical content of a [`Config`].
pub ghost struct ConfigView {
    pub base_url: Seq<char>,
    pub key: Seq<char>,
    pub token: Seq<char>,
}

impl View for Config {
    type V = ConfigView;

    open spec fn view(&self) -> ConfigView {
        ConfigView { base_url: self.base_url@, key: self.key@, token: self.token@ }
    }
}

/// The configuration that a document holds: the strings under `base_url`,
/// `key` and `token` of an object. `DecodeError` where the document is no
/// object, or one of the three is missing or no string.
pub open spec fn spec_config(document: JsonView) -> Result<ConfigView, ErrorKind> {
    match (
        document.spec_text_member("base_url"@),
        document.spec_text_member("key"@),
        document.spec_text_member("token"@),
    ) {
        (Some(base_url), Some(key), Some(token)) => Ok(ConfigView { base_url, key, token }),
        _ => Err(ErrorKind::DecodeError),
    }
}

/// The configuration that a text holds: that of the document it is.
/// `DecodeError` where it is not JSON, and where it holds a fraction too
/// long for the parser to count.
pub open spec fn spec_config_text(text: Seq<char>) -> Result<ConfigView, ErrorKind> {
    match spec_parse_document(text) {
        Ok(document) => spec_config(document),
        Err(kind) => Err(kind),
    }
}

/// The contents of the outcome of reading a configuration.
pub open spec fn config_outcome_view(outcome: Result<Config, ErrorKind>) -> Result<
    ConfigView,
    ErrorKind,
> {
    match outcome {
        Ok(config) => Ok(config@),
        Err(kind) => Err(kind),
    }
}

impl Config {
    /// Reads the configuration out of a document.
    pub fn from_document(document: &Json) -> (outcome: Result<Config, ErrorKind>)
        ensures
            config_outcome_view(outcome) == spec_config(document@),
    {
        let base_url_key = String::from_str("base_url");
        let key_key = String::from_str("key");
        let token_key = String::from_str("token");
        match (
            document.text_member(&base_url_key),
            document.text_member(&key_key),
            document.text_member(&token_key),
        ) {
            (Some(base_url), Some(key), Some(token)) => Ok(
                Config { base_url: base_url.clone(), key: key.clone(), token: token.clone() },
            ),
            _ => Err(ErrorKind::DecodeError),
        }
    }

    /// Reads the configuration from the text of its file: a JSON object with
    /// the strings `base_url`, `key` and `token`.
    pub fn from_text(text: &str) -> (outcome: Result<Config, ErrorKind>)
        ensures
            config_outcome_view(outcome) == spec_config_text(text@),
    {
        match parse_document(text) {
            Ok(document) => Config::from_document(&document),
            Err(_) => Err(ErrorKind::DecodeError),
        }
    }
}

} // verus!
