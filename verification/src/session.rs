//! What the configuration reads of a session, and the steps of opening and closing one.
use crate::role::Temperature;
use vstd::prelude::*;

verus! {

/// A session, as far as the configuration reads it.
#[derive(Debug)]
pub struct Session {
    pub name: String,
    pub model: String,
    pub temperature: Option<Temperature>,
    /// How many tokens the messages of the session take.
    pub tokens: usize,
    /// Whether the session holds no message.
    pub is_empty: bool,
    /// Whether the session has changes worth saving.
    pub should_save: bool,
    /// Whether the session has no name of its own yet.
    pub is_temp: bool,
}

impl Clone for Session {
    fn clone(&self) -> (copy: Session)
        ensures
            copy == *self,
    {
        Session {
            name: self.name.clone(),
            model: self.model.clone(),
            temperature: self.temperature,
            tokens: self.tokens,
            is_empty: self.is_empty,
            should_save: self.should_save,
            is_temp: self.is_temp,
        }
    }
}

/// What has to happen next for a session to start.
#[derive(Debug)]
pub enum StartStep {
    /// Look whether the file of the session `name` is there.
    Probe { name: String, temp: bool },
    /// Remove that file, which an earlier temporary session left.
    Remove { name: String },
    /// Read the session from that file.
    Load { name: String },
    /// Ask whether the session takes up the last question and answer.
    Ask,
    /// The session is under way.
    Started,
}

/// What has to happen next for a session to end.
#[derive(Debug)]
pub enum EndStep {
    /// The session is over.
    Finished,
    /// Ask whether to save the session.
    ConfirmSave { session: Session },
    /// Ask under which name, with the session's own as the default.
    AskName { session: Session },
    /// Save the session in the file of the session `name`.
    Save { session: Session, name: String },
}

} // verus!
