//! Selecting a role, and what is sent for an input under the role or the session.
use crate::config::Config;
use crate::error::ConfigError;
use crate::role::{copied_role, find_role, first_match, no_match, Role, Temperature};
use crate::session::Session;
use crate::text::{decimal, decimal_text};
use vstd::prelude::*;

verus! {

/// What is sent to a model.
#[derive(Debug)]
pub struct SendData<T> {
    pub messages: Vec<T>,
    pub temperature: Option<Temperature>,
    pub stream: bool,
}

/// Looking `name` up among `roles` gives `result`: the first role that answers to it, completed
/// by `complete_prompt_args`, or an error where none does.
pub open spec fn retrieved<
    M: Fn(&Role, &str) -> bool,
    C: FnOnce(Role, &str) -> Role,
>(
    roles: Seq<Role>,
    name: &str,
    match_name: M,
    complete_prompt_args: C,
    result: Result<Role, ConfigError>,
) -> bool {
    match result {
        Ok(role) => exists|at: int|
            {
                &&& #[trigger] first_match(roles, name, match_name, at)
                &&& complete_prompt_args.ensures((roles[at], name), role)
            },
        Err(error) => {
            &&& no_match(roles, name, match_name)
            &&& error matches ConfigError::UnknownRole(unknown) && unknown@ == name@
        },
    }
}

/// Changing the role and the temperature in use to `role` and `temperature`. A session that is
/// under way is told of the role first, and where it refuses, both stay as they are.
pub open spec fn role_changed<
    U: FnOnce(Session, Option<Role>) -> (Session, Result<(), String>),
>(
    before: Config,
    role: Option<Role>,
    temperature: Option<Temperature>,
    update_role: U,
    after: Config,
    result: Result<(), ConfigError>,
) -> bool {
    match before.session {
        None => {
            &&& result is Ok
            &&& after == (Config { role, temperature, ..before })
        },
        Some(session) => exists|updated: Session, outcome: Result<(), String>|
            {
                &&& #[trigger] update_role.ensures((session, role), (updated, outcome))
                &&& match outcome {
                    Ok(_) => {
                        &&& result is Ok
                        &&& after == (Config {
                            role,
                            temperature,
                            session: Some(updated),
                            ..before
                        })
                    },
                    Err(text) => {
                        &&& result == Err::<(), _>(ConfigError::Session(text))
                        &&& after == (Config { session: Some(updated), ..before })
                    },
                }
            },
    }
}

/// The messages for `content`: those of the session, else those of the role, else `content`
/// alone.
pub open spec fn composed<
    T,
    S: FnOnce(&Session, &str) -> Vec<T>,
    R: FnOnce(&Role, &str) -> Vec<T>,
    P: FnOnce(&str) -> T,
>(
    config: Config,
    content: &str,
    session_messages: S,
    role_messages: R,
    new_message: P,
    messages: Vec<T>,
) -> bool {
    match (config.session, config.role) {
        (Some(session), _) => session_messages.ensures((&session, content), messages),
        (None, Some(role)) => role_messages.ensures((&role, content), messages),
        (None, None) => messages@.len() == 1 && new_message.ensures((content,), messages@[0]),
    }
}

/// Building the messages for `content` gives `result`: an error where they take as many tokens
/// as the model has, or more.
pub open spec fn built<
    T,
    S: FnOnce(&Session, &str) -> Vec<T>,
    R: FnOnce(&Role, &str) -> Vec<T>,
    P: FnOnce(&str) -> T,
    N: Fn(&Vec<T>) -> usize,
>(
    config: Config,
    content: &str,
    session_messages: S,
    role_messages: R,
    new_message: P,
    num_tokens: N,
    result: Result<Vec<T>, ConfigError>,
) -> bool {
    exists|messages: Vec<T>, tokens: usize|
        {
            &&& composed(
                config,
                content,
                session_messages,
                role_messages,
                new_message,
                messages,
            )
            &&& #[trigger] num_tokens.ensures((&messages,), tokens)
            &&& result == admitted(config, messages, tokens)
        }
}

/// `messages`, unless they take as many `tokens` as the model has, or more.
pub open spec fn admitted<T>(config: Config, messages: Vec<T>, tokens: usize) -> Result<
    Vec<T>,
    ConfigError,
> {
    if tokens >= config.model_info.max_tokens {
        Err(ConfigError::ExceedMaxTokens)
    } else {
        Ok(messages)
    }
}

pub open spec fn token_notice(tokens: nat) -> Seq<char> {
    ">>> This message consumes "@ + decimal_text(tokens) + " tokens. <<<"@
}

impl Config {
    /// The first role that answers to `name`, as `match_name` tells, with the arguments that
    /// the name carries filled into its prompt by `complete_prompt_args`.
    pub fn retrieve_role<M: Fn(&Role, &str) -> bool, C: FnOnce(Role, &str) -> Role>(
        &self,
        name: &str,
        match_name: M,
        complete_prompt_args: C,
    ) -> (result: Result<Role, ConfigError>)
        requires
            forall|role: &Role| match_name.requires((role, name)),
            forall|role: Role| complete_prompt_args.requires((role, name)),
        ensures
            retrieved(self.roles@, name, match_name, complete_prompt_args, result),
    {
        match find_role(&self.roles, name, match_name) {
            Some(at) => {
                let role = complete_prompt_args(self.roles[at].clone(), name);
                assert(first_match(self.roles@, name, match_name, at as int));
                Ok(role)
            },
            None => Err(ConfigError::UnknownRole(name.to_owned())),
        }
    }

    fn change_role<U: FnOnce(Session, Option<Role>) -> (Session, Result<(), String>)>(
        &mut self,
        role: Option<Role>,
        temperature: Option<Temperature>,
        update_role: U,
    ) -> (result: Result<(), ConfigError>)
        requires
            forall|session: Session, role: Option<Role>| update_role.requires((session, role)),
        ensures
            role_changed(*old(self), role, temperature, update_role, *final(self), result),
    {
        if let Some(session) = self.session.take() {
            let (updated, outcome) = update_role(session, copied_role(&role));
            assert(update_role.ensures((session, role), (updated, outcome)));
            self.session = Some(updated);
            if let Err(text) = outcome {
                return Err(ConfigError::Session(text));
            }
        }
        self.temperature = temperature;
        self.role = role;
        Ok(())
    }

    /// Selects the role that answers to `name`, and takes its temperature. A session that is
    /// under way is told first, by `update_role`, and may refuse.
    pub fn set_role<
        M: Fn(&Role, &str) -> bool,
        C: FnOnce(Role, &str) -> Role,
        U: FnOnce(Session, Option<Role>) -> (Session, Result<(), String>),
    >(
        &mut self,
        name: &str,
        match_name: M,
        complete_prompt_args: C,
        update_role: U,
    ) -> (result: Result<(), ConfigError>)
        requires
            forall|role: &Role| match_name.requires((role, name)),
            forall|role: Role| complete_prompt_args.requires((role, name)),
            forall|session: Session, role: Option<Role>| update_role.requires((session, role)),
        ensures
            exists|found: Result<Role, ConfigError>|
                {
                    &&& #[trigger] retrieved(
                        old(self).roles@,
                        name,
                        match_name,
                        complete_prompt_args,
                        found,
                    )
                    &&& match found {
                        Ok(role) => role_changed(
                            *old(self),
                            Some(role),
                            role.temperature,
                            update_role,
                            *final(self),
                            result,
                        ),
                        Err(error) => {
                            &&& result == Err::<(), _>(error)
                            &&& *final(self) == *old(self)
                        },
                    }
                },
    {
        let found = self.retrieve_role(name, match_name, complete_prompt_args);
        assert(retrieved(self.roles@, name, match_name, complete_prompt_args, found));
        match found {
            Ok(role) => {
                let temperature = role.temperature;
                self.change_role(Some(role), temperature, update_role)
            },
            Err(error) => Err(error),
        }
    }

    /// Leaves the role, and goes back to the default temperature. A session that is under way
    /// is told first, by `update_role`, and may refuse.
    pub fn clear_role<U: FnOnce(Session, Option<Role>) -> (Session, Result<(), String>)>(
        &mut self,
        update_role: U,
    ) -> (result: Result<(), ConfigError>)
        requires
            forall|session: Session, role: Option<Role>| update_role.requires((session, role)),
        ensures
            role_changed(
                *old(self),
                None,
                old(self).default_temperature,
                update_role,
                *final(self),
                result,
            ),
    {
        let temperature = self.default_temperature;
        self.change_role(None, temperature, update_role)
    }

    /// What is sent for `content`, as a text: in the words of the session, else of the role.
    pub fn echo_messages<S: FnOnce(&Session, &str) -> String, R: FnOnce(&Role, &str) -> String>(
        &self,
        content: &str,
        session_echo: S,
        role_echo: R,
    ) -> (echo: String)
        requires
            forall|session: &Session| session_echo.requires((session, content)),
            forall|role: &Role| role_echo.requires((role, content)),
        ensures
            match (self.session, self.role) {
                (Some(session), _) => session_echo.ensures((&session, content), echo),
                (None, Some(role)) => role_echo.ensures((&role, content), echo),
                (None, None) => echo@ == content@,
            },
    {
        if let Some(session) = &self.session {
            session_echo(session, content)
        } else if let Some(role) = &self.role {
            role_echo(role, content)
        } else {
            content.to_owned()
        }
    }

    /// The messages for `content`, as `session_messages` or `role_messages` composes them, or
    /// `new_message` where there is neither a session nor a role. `num_tokens` counts what they
    /// take.
    pub fn build_messages<
        T,
        S: FnOnce(&Session, &str) -> Vec<T>,
        R: FnOnce(&Role, &str) -> Vec<T>,
        P: FnOnce(&str) -> T,
        N: Fn(&Vec<T>) -> usize,
    >(
        &self,
        content: &str,
        session_messages: S,
        role_messages: R,
        new_message: P,
        num_tokens: &N,
    ) -> (result: Result<Vec<T>, ConfigError>)
        requires
            forall|session: &Session| session_messages.requires((session, content)),
            forall|role: &Role| role_messages.requires((role, content)),
            new_message.requires((content,)),
            forall|messages: &Vec<T>| (*num_tokens).requires((messages,)),
        ensures
            built(
                *self,
                content,
                session_messages,
                role_messages,
                new_message,
                *num_tokens,
                result,
            ),
    {
        let messages = if let Some(session) = &self.session {
            session_messages(session, content)
        } else if let Some(role) = &self.role {
            role_messages(role, content)
        } else {
            let mut messages: Vec<T> = Vec::new();
            messages.push(new_message(content));
            messages
        };
        let tokens: usize = (*num_tokens)(&messages);
        assert(composed(
            *self,
            content,
            session_messages,
            role_messages,
            new_message,
            messages,
        ));
        assert((*num_tokens).ensures((&messages,), tokens));
        if tokens >= self.model_info.max_tokens {
            return Err(ConfigError::ExceedMaxTokens);
        }
        Ok(messages)
    }

    /// The messages for `content`, with the temperature in use.
    pub fn prepare_send_data<
        T,
        S: FnOnce(&Session, &str) -> Vec<T>,
        R: FnOnce(&Role, &str) -> Vec<T>,
        P: FnOnce(&str) -> T,
        N: Fn(&Vec<T>) -> usize,
    >(
        &self,
        content: &str,
        stream: bool,
        session_messages: S,
        role_messages: R,
        new_message: P,
        num_tokens: &N,
    ) -> (result: Result<SendData<T>, ConfigError>)
        requires
            forall|session: &Session| session_messages.requires((session, content)),
            forall|role: &Role| role_messages.requires((role, content)),
            new_message.requires((content,)),
            forall|messages: &Vec<T>| (*num_tokens).requires((messages,)),
        ensures
            exists|messages: Result<Vec<T>, ConfigError>|
                {
                    &&& #[trigger] built(
                        *self,
                        content,
                        session_messages,
                        role_messages,
                        new_message,
                        *num_tokens,
                        messages,
                    )
                    &&& result == (match messages {
                        Ok(messages) => Ok(
                            SendData { messages, temperature: self.temperature, stream },
                        ),
                        Err(error) => Err(error),
                    })
                },
    {
        let messages = self.build_messages(
            content,
            session_messages,
            role_messages,
            new_message,
            num_tokens,
        );
        assert(built(
            *self,
            content,
            session_messages,
            role_messages,
            new_message,
            *num_tokens,
            messages,
        ));
        match messages {
            Ok(messages) => Ok(
                SendData { messages, temperature: self.get_temperature(), stream },
            ),
            Err(error) => Err(error),
        }
    }

    /// In a dry run, the line that says how many tokens the messages for `input` take; nothing
    /// where they cannot be sent.
    pub fn maybe_print_send_tokens<
        T,
        S: FnOnce(&Session, &str) -> Vec<T>,
        R: FnOnce(&Role, &str) -> Vec<T>,
        P: FnOnce(&str) -> T,
        N: Fn(&Vec<T>) -> usize,
    >(
        &self,
        input: &str,
        session_messages: S,
        role_messages: R,
        new_message: P,
        num_tokens: &N,
    ) -> (line: Option<String>)
        requires
            forall|session: &Session| session_messages.requires((session, input)),
            forall|role: &Role| role_messages.requires((role, input)),
            new_message.requires((input,)),
            forall|messages: &Vec<T>| (*num_tokens).requires((messages,)),
        ensures
            !self.dry_run ==> line is None,
            self.dry_run ==> exists|messages: Result<Vec<T>, ConfigError>|
                {
                    &&& #[trigger] built(
                        *self,
                        input,
                        session_messages,
                        role_messages,
                        new_message,
                        *num_tokens,
                        messages,
                    )
                    &&& match messages {
                        Ok(messages) => exists|tokens: usize|
                            {
                                &&& #[trigger] (*num_tokens).ensures((&messages,), tokens)
                                &&& line is Some
                                &&& line->0@ == token_notice(tokens as nat)
                            },
                        Err(_) => line is None,
                    }
                },
    {
        if !self.dry_run {
            return None;
        }
        let messages = self.build_messages(
            input,
            session_messages,
            role_messages,
            new_message,
            num_tokens,
        );
        assert(built(
            *self,
            input,
            session_messages,
            role_messages,
            new_message,
            *num_tokens,
            messages,
        ));
        match messages {
            Ok(messages) => {
                let tokens: usize = (*num_tokens)(&messages);
                assert((*num_tokens).ensures((&messages,), tokens));
                let count = decimal(tokens);
                Some(
                    ">>> This message consumes ".to_owned().concat(count.as_str()).concat(
                        " tokens. <<<",
                    ),
                )
            },
            Err(_) => None,
        }
    }
}

} // verus!
