//! What can go wrong, and what the user is told of it.
use vstd::prelude::*;

verus! {

#[derive(Clone, Debug, PartialEq, Eq)]
pub enum ConfigError {
    /// No role answers to the name.
    UnknownRole(String),
    /// Neither the environment nor the platform names a directory for the configuration.
    NoConfigDir,
    /// The messages take as many tokens as the model has, or more.
    ExceedMaxTokens,
    /// A text-wrapping mode other than `no`, `auto` and a width.
    InvalidWrap,
    /// No model on offer answers to the name.
    UnknownModel(String),
    /// A setting that is not a key and a value.
    UpdateUsage,
    /// A value that does not suit its key.
    InvalidValue,
    /// A key that no setting has.
    UnknownKey(String),
    /// A session is under way already.
    AlreadyInSession,
    /// What an earlier temporary session left could not be removed.
    CleanSession,
    /// No model is on offer.
    NoModel,
    /// A file to be written has no directory above it.
    NoParent(String),
    /// What is wrong with a configuration file that does not hold YAML.
    InvalidConfig(String),
    /// What the session answered to a request that it refused.
    Session(String),
}

impl ConfigError {
    /// The text of the error.
    pub open spec fn text(&self) -> Seq<char> {
        match *self {
            ConfigError::UnknownRole(name) => "Unknown role `"@ + name@ + "`"@,
            ConfigError::NoConfigDir => "Not found config dir"@,
            ConfigError::ExceedMaxTokens => "Exceed max tokens limit"@,
            ConfigError::InvalidWrap => "Invalid wrap value"@,
            ConfigError::UnknownModel(name) => "Unknown model '"@ + name@ + "'"@,
            ConfigError::UpdateUsage =>
                "Usage: .set <key> <value>. If value is null, unset key."@,
            ConfigError::InvalidValue => "Invalid value"@,
            ConfigError::UnknownKey(key) => "Unknown key `"@ + key@ + "`"@,
            ConfigError::AlreadyInSession =>
                "Already in a session, please use '.clear session' to exit the session first?"@,
            ConfigError::CleanSession => "Failed to clean previous session"@,
            ConfigError::NoModel => "No available model"@,
            ConfigError::NoParent(path) => "Failed to write to "@ + path@ + ", No parent path"@,
            ConfigError::InvalidConfig(text) => text@,
            ConfigError::Session(text) => text@,
        }
    }

    pub fn message(&self) -> (message: String)
        ensures
            message@ == self.text(),
    {
        match self {
            ConfigError::UnknownRole(name) =>
                "Unknown role `".to_owned().concat(name.as_str()).concat("`"),
            ConfigError::NoConfigDir => "Not found config dir".to_owned(),
            ConfigError::ExceedMaxTokens => "Exceed max tokens limit".to_owned(),
            ConfigError::InvalidWrap => "Invalid wrap value".to_owned(),
            ConfigError::UnknownModel(name) =>
                "Unknown model '".to_owned().concat(name.as_str()).concat("'"),
            ConfigError::UpdateUsage =>
                "Usage: .set <key> <value>. If value is null, unset key.".to_owned(),
            ConfigError::InvalidValue => "Invalid value".to_owned(),
            ConfigError::UnknownKey(key) =>
                "Unknown key `".to_owned().concat(key.as_str()).concat("`"),
            ConfigError::AlreadyInSession =>
                "Already in a session, please use '.clear session' to exit the session first?".to_owned(),
            ConfigError::CleanSession => "Failed to clean previous session".to_owned(),
            ConfigError::NoModel => "No available model".to_owned(),
            ConfigError::NoParent(path) =>
                "Failed to write to ".to_owned().concat(path.as_str()).concat(", No parent path"),
            ConfigError::InvalidConfig(text) => text.clone(),
            ConfigError::Session(text) => text.clone(),
        }
    }
}

} // verus!
