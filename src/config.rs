//! Settings of the service, from values that the caller read from its
//! environment.

use vstd::prelude::*;

use crate::rate_limit::{digits_value, is_ascii_digit};

verus! {

/// Why the settings could not be had.
#[derive(Debug, Clone, PartialEq, Eq)]
pub enum SettingsError {
    EnvironmentLoad,
    EnvironmentVariableMissing(String),
    InvalidVariableFormat(String),
}

impl SettingsError {
    /// The error in words.
    pub fn message(&self) -> (r: String)
        ensures
            r@ == settings_error_message(*self),
    {
        match self {
            SettingsError::EnvironmentLoad => {
                proof {
                    reveal_strlit("Failed to load environment variables.");
                }
                String::from_str("Failed to load environment variables.")
            },
            SettingsError::EnvironmentVariableMissing(key) => {
                proof {
                    reveal_strlit("Failed to find environment variable: ");
                }
                let mut text = String::from_str("Failed to find environment variable: ");
                text.append(key.as_str());
                text
            },
            SettingsError::InvalidVariableFormat(key) => {
                proof {
                    reveal_strlit("Failed to parse environment variable: ");
                }
                let mut text = String::from_str("Failed to parse environment variable: ");
                text.append(key.as_str());
                text
            },
        }
    }
}

/// The text of each settings error.
pub open spec fn settings_error_message(e: SettingsError) -> Seq<char> {
    match e {
        SettingsError::EnvironmentLoad => "Failed to load environment variables."@,
        SettingsError::EnvironmentVariableMissing(key) => "Failed to find environment variable: "@ + key@,
        SettingsError::InvalidVariableFormat(key) => "Failed to parse environment variable: "@ + key@,
    }
}

/// The number that `text` writes in decimal for a `u32`: an optional `+` and
/// one or more ASCII digits, with a value that fits.
pub open spec fn decimal_u32(text: Seq<char>) -> Option<u32> {
    let digits = if text.len() > 0 && text[0] == '+' { text.drop_first() } else { text };
    if digits.len() > 0 && (forall|i: int| 0 <= i < digits.len() ==> is_ascii_digit(#[trigger] digits[i]))
        && digits_value(digits) <= u32::MAX {
        Some(digits_value(digits) as u32)
    } else {
        None
    }
}

/// Relies on `str::parse::<u32>`: an optional `+` sign followed by one or more
/// ASCII digits, with a value that fits in a `u32`, is read as that number;
/// any other text, a `-` sign included, is an error.
#[verifier::external_body]
fn parse_u32(text: &str) -> (r: Option<u32>)
    ensures
        r == decimal_u32(text@),
{
    text.parse::<u32>().ok()
}

/// Where the service listens.
#[derive(Debug, Clone)]
pub struct ApplicationSettings {
    pub port: u32,
    pub host: String,
}

impl ApplicationSettings {
    /// The settings from the values of `PORT` and `HOST`, where set.
    pub fn new(port: Option<String>, host: Option<String>) -> (r: Result<ApplicationSettings, SettingsError>)
        ensures
            match r {
                Ok(settings) => port is Some && decimal_u32(port->0@) == Some(settings.port)
                    && host == Some(settings.host),
                Err(SettingsError::EnvironmentVariableMissing(key)) => (port is None && key@ == "PORT"@)
                    || (port is Some && decimal_u32(port->0@) is Some && host is None && key@ == "HOST"@),
                Err(SettingsError::InvalidVariableFormat(key)) => port is Some && decimal_u32(port->0@) is None
                    && key@ == "PORT"@,
                Err(SettingsError::EnvironmentLoad) => false,
            },
    {
        proof {
            reveal_strlit("PORT");
            reveal_strlit("HOST");
        }
        let port = match port {
            Some(text) => match parse_u32(text.as_str()) {
                Some(value) => value,
                None => {
                    return Err(SettingsError::InvalidVariableFormat(String::from_str("PORT")));
                },
            },
            None => {
                return Err(SettingsError::EnvironmentVariableMissing(String::from_str("PORT")));
            },
        };
        match host {
            Some(host) => Ok(ApplicationSettings { port, host }),
            None => Err(SettingsError::EnvironmentVariableMissing(String::from_str("HOST"))),
        }
    }

    pub fn set_port(&mut self, port: u32)
        ensures
            final(self).port == port,
            final(self).host == old(self).host,
    {
        self.port = port;
    }
}

/// How to reach the store.
#[derive(Debug, Clone)]
pub struct RedisSettings {
    pub url: String,
}

impl RedisSettings {
    /// The settings from the value of `REDIS_URL`, where set.
    pub fn new(url: Option<String>) -> (r: Result<RedisSettings, SettingsError>)
        ensures
            match r {
                Ok(settings) => url == Some(settings.url),
                Err(SettingsError::EnvironmentVariableMissing(key)) => url is None && key@ == "REDIS_URL"@,
                Err(_) => false,
            },
    {
        proof {
            reveal_strlit("REDIS_URL");
        }
        match url {
            Some(url) => Ok(RedisSettings { url }),
            None => Err(SettingsError::EnvironmentVariableMissing(String::from_str("REDIS_URL"))),
        }
    }
}

} // verus!
