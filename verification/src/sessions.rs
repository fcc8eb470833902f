//! Starting and ending a session, and keeping what was said.
use crate::client::ModelInfo;
use crate::config::Config;
use crate::error::ConfigError;
use crate::models::model_asked;
use crate::role::{copied_role, Role};
use crate::session::{EndStep, Session, StartStep};
use crate::text::{strip_suffix, texts};
use vstd::prelude::*;

verus! {

/// What is left to do to keep a question and its answer.
#[derive(Copy, Clone, Debug, PartialEq, Eq, Structural)]
pub enum MessageSink {
    /// Nothing.
    Nothing,
    /// Open the message file, which makes it where it is missing, and write nothing.
    Open,
    /// Append the entry for the message to that file.
    Append,
}

/// What is left to do where no session keeps the message.
pub open spec fn sink_of(config: Config, output: Seq<char>) -> MessageSink {
    if config.dry_run || !config.save {
        MessageSink::Nothing
    } else if output.len() == 0 {
        MessageSink::Open
    } else {
        MessageSink::Append
    }
}

/// The entry of the message file for a question and its answer.
pub open spec fn entry_text(
    role: Option<Role>,
    input: Seq<char>,
    output: Seq<char>,
    timestamp: Seq<char>,
) -> Seq<char> {
    let title = match role {
        None => "# CHAT:["@ + timestamp + "]\n"@,
        Some(role) => "# CHAT:["@ + timestamp + "] ("@ + role.name@ + ")\n"@,
    };
    title + input + "\n--------\n"@ + output + "\n--------\n\n"@
}

/// Handing a question and its answer to the session of `before`, of which `add_message` makes
/// a new one, or an error.
pub open spec fn message_added<
    A: FnOnce(Session, &str, &str) -> (Session, Result<(), String>),
    T,
>(
    before: Config,
    session: Session,
    input: &str,
    output: &str,
    add_message: A,
    done: T,
    after: Config,
    result: Result<T, ConfigError>,
) -> bool {
    exists|updated: Session, outcome: Result<(), String>|
        {
            &&& #[trigger] add_message.ensures((session, input, output), (updated, outcome))
            &&& after == (Config { session: Some(updated), ..before })
            &&& result == (match outcome {
                Ok(_) => Ok(done),
                Err(text) => Err(ConfigError::Session(text)),
            })
        }
}

/// `config` in `session`, with the temperature of the session.
pub open spec fn in_session(config: Config, session: Session) -> Config {
    Config { temperature: session.temperature, session: Some(session), ..config }
}

/// `config` once its session is over: without the last message, at the default temperature.
pub open spec fn out_of_session(config: Config) -> Config {
    Config {
        session: None,
        last_message: None,
        temperature: config.default_temperature,
        ..config
    }
}

/// What comes after a session was opened: an empty one may take up the last message.
pub open spec fn step_after_opening(config: Config) -> StartStep {
    match config.session {
        Some(session) => if session.is_empty && config.last_message is Some {
            StartStep::Ask
        } else {
            StartStep::Started
        },
        None => StartStep::Started,
    }
}

/// Opening a new session under `name`, which `new_session` makes of it, of the model in use and
/// of the selected role.
pub open spec fn session_opened<N: FnOnce(&str, &str, Option<Role>) -> Session>(
    before: Config,
    name: Seq<char>,
    new_session: N,
    after: Config,
) -> bool {
    exists|called: &str, model: &str, session: Session|
        {
            &&& called@ == name
            &&& model@ == before.model_info.text()
            &&& #[trigger] new_session.ensures((called, model, before.role), session)
            &&& after == (Config { session: Some(session), ..before })
        }
}

/// The session that a file of the session directory holds, where it holds one.
pub open spec fn session_name_of(file: Seq<char>) -> Option<Seq<char>> {
    if ".yaml"@.is_suffix_of(file) {
        Some(file.take(file.len() - ".yaml"@.len()))
    } else {
        None
    }
}

/// The sessions that the files of the session directory hold, in their order.
pub open spec fn session_names(files: Seq<Seq<char>>) -> Seq<Seq<char>>
    decreases files.len(),
{
    if files.len() == 0 {
        Seq::empty()
    } else {
        let front = session_names(files.drop_last());
        match session_name_of(files.last()) {
            Some(name) => front.push(name),
            None => front,
        }
    }
}

/// The session of a file, which is its name without the ending that session files have.
fn session_name(file: &str) -> (name: Option<String>)
    ensures
        match name {
            Some(name) => session_name_of(file@) == Some(name@),
            None => session_name_of(file@) is None,
        },
{
    let rest = strip_suffix(file, ".yaml");
    proof {
        let suffix = ".yaml"@;
        match &rest {
            Some(front) => {
                assert(file@ == front@ + suffix);
                assert((front@ + suffix).take((front@ + suffix).len() - suffix.len()) =~= front@);
                assert((front@ + suffix).subrange(
                    (front@ + suffix).len() - suffix.len(),
                    (front@ + suffix).len() as int,
                ) =~= suffix);
            },
            None => {
                if suffix.is_suffix_of(file@) {
                    let front = file@.take(file@.len() - suffix.len());
                    assert(file@ =~= front + suffix);
                }
            },
        }
    }
    rest
}

impl Config {
    /// Keeps a question and its answer as the last message, and hands them to the session that
    /// is under way, by `add_message`. Where none is, tells what is left to do.
    pub fn save_message<A: FnOnce(Session, &str, &str) -> (Session, Result<(), String>)>(
        &mut self,
        input: &str,
        output: &str,
        add_message: A,
    ) -> (result: Result<MessageSink, ConfigError>)
        requires
            forall|session: Session| add_message.requires((session, input, output)),
        ensures
            final(self).last_message matches Some(kept) && kept.0@ == input@ && kept.1@ == output@,
            ({
                let kept = Config { last_message: final(self).last_message, ..*old(self) };
                if !old(self).dry_run && old(self).session is Some {
                    message_added(
                        kept,
                        old(self).session->0,
                        input,
                        output,
                        add_message,
                        MessageSink::Nothing,
                        *final(self),
                        result,
                    )
                } else {
                    &&& result == Ok::<_, ConfigError>(sink_of(*old(self), output@))
                    &&& *final(self) == kept
                }
            }),
    {
        self.last_message = Some((input.to_owned(), output.to_owned()));
        if self.dry_run {
            return Ok(MessageSink::Nothing);
        }
        if let Some(session) = self.session.take() {
            let (updated, outcome) = add_message(session, input, output);
            assert(add_message.ensures((session, input, output), (updated, outcome)));
            self.session = Some(updated);
            return match outcome {
                Ok(_) => Ok(MessageSink::Nothing),
                Err(text) => Err(ConfigError::Session(text)),
            };
        }
        if !self.save {
            return Ok(MessageSink::Nothing);
        }
        if output.is_empty() {
            return Ok(MessageSink::Open);
        }
        Ok(MessageSink::Append)
    }

    /// The entry of the message file for a question and its answer at the time `timestamp`.
    pub fn message_entry(&self, input: &str, output: &str, timestamp: &str) -> (entry: String)
        ensures
            entry@ == entry_text(self.role, input@, output@, timestamp@),
    {
        let mut entry = "# CHAT:[".to_owned();
        entry.append(timestamp);
        match &self.role {
            None => {
                entry.append("]\n");
            },
            Some(role) => {
                entry.append("] (");
                entry.append(role.name.as_str());
                entry.append(")\n");
            },
        }
        entry.append(input);
        entry.append("\n--------\n");
        entry.append(output);
        entry.append("\n--------\n\n");
        entry
    }

    /// Sets out to start the session of that name, or a temporary one, called `temp_name`.
    pub fn start_session(&self, session: &Option<String>, temp_name: &str) -> (result: Result<
        StartStep,
        ConfigError,
    >)
        ensures
            match result {
                Err(error) => self.session is Some && error == ConfigError::AlreadyInSession,
                Ok(step) => {
                    &&& self.session is None
                    &&& step matches StartStep::Probe { name, temp }
                    &&& temp == (session is None)
                    &&& name@ == (match *session {
                        Some(name) => name@,
                        None => temp_name@,
                    })
                },
            },
    {
        if self.session.is_some() {
            return Err(ConfigError::AlreadyInSession);
        }
        Ok(
            match session {
                None => StartStep::Probe { name: temp_name.to_owned(), temp: true },
                Some(name) => StartStep::Probe { name: name.clone(), temp: false },
            },
        )
    }

    /// What comes after a session was opened.
    fn opened(&self) -> (step: StartStep)
        ensures
            step == step_after_opening(*self),
    {
        if let Some(session) = &self.session {
            if session.is_empty && self.last_message.is_some() {
                return StartStep::Ask;
            }
        }
        StartStep::Started
    }

    fn open_session<N: FnOnce(&str, &str, Option<Role>) -> Session>(
        &mut self,
        name: &str,
        new_session: N,
    ) -> (step: StartStep)
        requires
            forall|name: &str, model: &str, role: Option<Role>|
                new_session.requires((name, model, role)),
        ensures
            session_opened(*old(self), name@, new_session, *final(self)),
            step == step_after_opening(*final(self)),
    {
        let text = self.model_info.stringify();
        let model = text.as_str();
        let session = new_session(name, model, copied_role(&self.role));
        assert(new_session.ensures((name, model, self.role), session));
        self.session = Some(session);
        self.opened()
    }

    /// Goes on with a start now that it is known whether the file of the session is there. What
    /// a temporary session left is to be removed, a named one is to be read, and where there is
    /// no file a new session is opened.
    pub fn session_probed<N: FnOnce(&str, &str, Option<Role>) -> Session>(
        &mut self,
        name: String,
        temp: bool,
        exists_file: bool,
        new_session: N,
    ) -> (step: StartStep)
        requires
            forall|name: &str, model: &str, role: Option<Role>|
                new_session.requires((name, model, role)),
        ensures
            if exists_file {
                &&& *final(self) == *old(self)
                &&& step == (if temp {
                    StartStep::Remove { name }
                } else {
                    StartStep::Load { name }
                })
            } else {
                &&& session_opened(*old(self), name@, new_session, *final(self))
                &&& step == step_after_opening(*final(self))
            },
    {
        if exists_file {
            if temp {
                StartStep::Remove { name }
            } else {
                StartStep::Load { name }
            }
        } else {
            self.open_session(name.as_str(), new_session)
        }
    }

    /// Goes on with a start now that what a temporary session left was removed, or was not.
    pub fn session_removed<N: FnOnce(&str, &str, Option<Role>) -> Session>(
        &mut self,
        name: String,
        removed: bool,
        new_session: N,
    ) -> (result: Result<StartStep, ConfigError>)
        requires
            forall|name: &str, model: &str, role: Option<Role>|
                new_session.requires((name, model, role)),
        ensures
            if removed {
                &&& session_opened(*old(self), name@, new_session, *final(self))
                &&& result == Ok::<_, ConfigError>(step_after_opening(*final(self)))
            } else {
                &&& *final(self) == *old(self)
                &&& result == Err::<StartStep, _>(ConfigError::CleanSession)
            },
    {
        if !removed {
            return Err(ConfigError::CleanSession);
        }
        Ok(self.open_session(name.as_str(), new_session))
    }

    /// Goes on with a start now that the session was read: its temperature and its model come
    /// into use.
    pub fn session_loaded<
        L: Fn(&Config) -> Vec<ModelInfo>,
        U: FnOnce(Session, &str) -> (Session, Result<(), String>),
    >(&mut self, session: Session, list_models: &L, set_session_model: U) -> (result: Result<
        StartStep,
        ConfigError,
    >)
        requires
            forall|config: &Config| (*list_models).requires((config,)),
            forall|session: Session, text: &str| set_session_model.requires((session, text)),
        ensures
            exists|taken: Result<(), ConfigError>|
                {
                    &&& #[trigger] model_asked(
                        in_session(*old(self), session),
                        session.model@,
                        *list_models,
                        set_session_model,
                        *final(self),
                        taken,
                    )
                    &&& result == (match taken {
                        Ok(_) => Ok(step_after_opening(*final(self))),
                        Err(error) => Err(error),
                    })
                },
    {
        let model = session.model.clone();
        self.temperature = session.temperature;
        self.session = Some(session);
        let ghost opened = *self;
        let taken = self.set_model(model.as_str(), list_models, set_session_model);
        assert(model_asked(opened, session.model@, *list_models, set_session_model, *self, taken));
        match taken {
            Ok(_) => Ok(self.opened()),
            Err(error) => Err(error),
        }
    }

    /// Ends a start with the answer to whether the session takes up the last question and
    /// answer, which `add_message` then adds to it.
    pub fn session_answered<A: FnOnce(Session, &str, &str) -> (Session, Result<(), String>)>(
        &mut self,
        answer: bool,
        add_message: A,
    ) -> (result: Result<(), ConfigError>)
        requires
            forall|session: Session, input: &str, output: &str|
                add_message.requires((session, input, output)),
        ensures
            match (old(self).session, old(self).last_message) {
                (Some(session), Some(kept)) => if answer {
                    exists|input: &str, output: &str|
                        {
                            &&& input@ == kept.0@
                            &&& output@ == kept.1@
                            &&& #[trigger] message_added(
                                *old(self),
                                session,
                                input,
                                output,
                                add_message,
                                (),
                                *final(self),
                                result,
                            )
                        }
                } else {
                    result is Ok && *final(self) == *old(self)
                },
                _ => result is Ok && *final(self) == *old(self),
            },
    {
        if answer {
            if self.last_message.is_some() {
                if let Some(session) = self.session.take() {
                    let kept = self.last_message.as_ref().unwrap();
                    let input = kept.0.as_str();
                    let output = kept.1.as_str();
                    let (updated, outcome) = add_message(session, input, output);
                    assert(add_message.ensures((session, input, output), (updated, outcome)));
                    self.session = Some(updated);
                    let result = match outcome {
                        Ok(_) => Ok(()),
                        Err(text) => Err(ConfigError::Session(text)),
                    };
                    assert(message_added(
                        *old(self),
                        session,
                        input,
                        output,
                        add_message,
                        (),
                        *self,
                        result,
                    ));
                    return result;
                }
            }
        }
        Ok(())
    }

    /// Leaves the session that is under way, with the last message and its temperature. One
    /// that has changes may then be saved.
    pub fn end_session(&mut self) -> (step: EndStep)
        ensures
            match old(self).session {
                Some(session) => {
                    &&& *final(self) == out_of_session(*old(self))
                    &&& step == (if session.should_save {
                        EndStep::ConfirmSave { session }
                    } else {
                        EndStep::Finished
                    })
                },
                None => step == EndStep::Finished && *final(self) == *old(self),
            },
    {
        if let Some(session) = self.session.take() {
            self.last_message = None;
            self.temperature = self.default_temperature;
            if session.should_save {
                return EndStep::ConfirmSave { session };
            }
        }
        EndStep::Finished
    }

    /// Goes on with an end now that it is known whether to save the session: one with a name of
    /// its own is saved under it, and a temporary one is asked for a name first.
    pub fn save_answered(session: Session, answer: bool) -> (step: EndStep)
        ensures
            if !answer {
                step == EndStep::Finished
            } else if session.is_temp {
                step == (EndStep::AskName { session })
            } else {
                step == (EndStep::Save { session, name: session.name })
            },
    {
        if !answer {
            return EndStep::Finished;
        }
        if session.is_temp {
            return EndStep::AskName { session };
        }
        let name = session.name.clone();
        EndStep::Save { session, name }
    }

    /// Goes on with an end now that the temporary session has a name: it is saved under it.
    pub fn name_given(session: Session, name: String) -> (step: EndStep)
        ensures
            step == (EndStep::Save { session, name }),
    {
        EndStep::Save { session, name }
    }

    /// The sessions that the files of the session directory hold.
    pub fn list_sessions(files: &Vec<String>) -> (names: Vec<String>)
        ensures
            texts(names@) == session_names(texts(files@)),
    {
        let mut names: Vec<String> = Vec::new();
        let mut i: usize = 0;
        assert(texts(files@).take(0) =~= Seq::empty());
        assert(texts(names@) =~= Seq::empty());
        while i < files.len()
            invariant
                i <= files.len(),
                texts(names@) == session_names(texts(files@).take(i as int)),
            decreases files.len() - i,
        {
            let ghost before = texts(names@);
            let ghost seen = texts(files@).take(i + 1);
            assert(seen.drop_last() =~= texts(files@).take(i as int));
            assert(seen.last() == files[i as int]@);
            if let Some(name) = session_name(files[i].as_str()) {
                names.push(name);
                assert(texts(names@) =~= before.push(name@));
            }
            i += 1;
        }
        assert(texts(files@).take(i as int) =~= texts(files@));
        names
    }
}

} // verus!
