//! The configuration shared read-only by every request: the secret that
//! guards the restart action and a hint for it.
use vstd::prelude::*;

verus! {

/// Why a configuration could not be built.
#[derive(PartialEq, Eq, Structural, Clone, Copy, Debug)]
pub enum ConfigError {
    /// No secret was given.
    MissingSecret,
    /// A secret was given, but no hint for it.
    MissingSecretHint,
}

/// The secret and its hint. Both are always present: a configuration with
/// either one missing cannot be built.
#[derive(Clone, Debug)]
pub struct Config {
    secret: String,
    secret_hint: String,
}

impl Config {
    pub closed spec fn secret_view(&self) -> Seq<char> {
        self.secret@
    }

    pub closed spec fn secret_hint_view(&self) -> Seq<char> {
        self.secret_hint@
    }

    /// Builds the configuration from the values found at startup. The secret
    /// is checked first, so a missing secret is reported even when the hint
    /// is missing too.
    pub fn new(secret: Option<String>, secret_hint: Option<String>) -> (r: Result<Config, ConfigError>)
        ensures
            secret is None ==> r == Err::<Config, ConfigError>(ConfigError::MissingSecret),
            secret is Some && secret_hint is None ==> r == Err::<Config, ConfigError>(
                ConfigError::MissingSecretHint,
            ),
            secret is Some && secret_hint is Some ==> r is Ok,
            r matches Ok(c) ==> c.secret_view() == secret->0@ && c.secret_hint_view()
                == secret_hint->0@,
    {
        match secret {
            None => Err(ConfigError::MissingSecret),
            Some(secret) => match secret_hint {
                None => Err(ConfigError::MissingSecretHint),
                Some(secret_hint) => Ok(Config { secret, secret_hint }),
            },
        }
    }

    /// The configured secret.
    pub fn secret(&self) -> (r: &str)
        ensures
            r@ == self.secret_view(),
    {
        self.secret.as_str()
    }

    /// The configured hint for the secret.
    pub fn secret_hint(&self) -> (r: &str)
        ensures
            r@ == self.secret_hint_view(),
    {
        self.secret_hint.as_str()
    }
}

impl ConfigError {
    /// A sentence that describes the error.
    pub fn message(&self) -> (r: String)
        ensures
            *self == ConfigError::MissingSecret ==> r@ == "the secret is not configured"@,
            *self == ConfigError::MissingSecretHint ==> r@ == "the secret hint is not configured"@,
    {
        match self {
            ConfigError::MissingSecret => "the secret is not configured".to_owned(),
            ConfigError::MissingSecretHint => "the secret hint is not configured".to_owned(),
        }
    }
}

} // verus!
