//! From nothing to a configuration that is ready for use.
use crate::client::ModelInfo;
use crate::config::{after_no_color, theme_detected, wrap_set, Config};
use crate::error::ConfigError;
use crate::legacy::legacy_read;
use crate::models::first_model_asked;
use crate::role::Role;
use crate::session::Session;
use vstd::prelude::*;

verus! {

/// Where the configuration comes from.
#[derive(Copy, Clone, Debug, PartialEq, Eq, Structural)]
pub struct InitPlan {
    /// Whether a configuration file is made first, with the help of the user.
    pub create: bool,
    /// Whether the configuration is read from its file; else it is the default one.
    pub load: bool,
}

/// Why a configuration could not be made ready.
#[derive(Debug)]
pub enum InitError<E> {
    /// Something is wrong with the configuration.
    Config(ConfigError),
    /// Something is wrong with a file or a directory.
    Files(E),
}

/// The variables of the environment that the configuration heeds, where they are set.
#[derive(Copy, Clone, Debug)]
pub struct Environment<'a> {
    /// Whether colours are unwanted.
    pub no_color: Option<&'a str>,
    /// Whether the theme is a light one.
    pub light_theme: Option<&'a str>,
    /// The colours of the terminal.
    pub colorfgbg: Option<&'a str>,
}

/// Taking over the settings of the configuration file that was there, if any.
pub open spec fn compat_step(
    before: Config,
    existing: Option<&str>,
    openai: Seq<char>,
    after: Config,
    result: Result<(), ConfigError>,
) -> bool {
    match existing {
        Some(content) => legacy_read(before, content@, openai, after, result),
        None => result is Ok && after == before,
    }
}

/// Holding the wrapping mode of the configuration, if it has one, to those that there are.
pub open spec fn wrap_step(before: Config, after: Config, result: Result<(), ConfigError>) -> bool {
    match before.wrap {
        Some(wrap) => wrap_set(before, wrap@, after, result),
        None => result is Ok && after == before,
    }
}

/// `config` with the default temperature in use.
pub open spec fn at_default_temperature(config: Config) -> Config {
    Config { temperature: config.default_temperature, ..config }
}

/// `config` with the predefined roles of their file, where there is one.
pub open spec fn with_roles(config: Config, roles: Option<Vec<Role>>) -> Config {
    match roles {
        Some(roles) => Config { roles, ..config },
        None => config,
    }
}

/// The last steps of making a configuration ready: the roles, the directory of the sessions and
/// the theme.
pub open spec fn furnished<
    E,
    R: FnOnce() -> Result<Option<Vec<Role>>, E>,
    D: FnOnce() -> Result<(), E>,
    C: FnOnce(&str) -> Option<bool>,
>(
    before: Config,
    environment: Environment<'_>,
    read_roles: R,
    ensure_sessions_dir: D,
    light_theme_from_colorfgbg: C,
    result: Result<Config, InitError<E>>,
) -> bool {
    exists|roles: Result<Option<Vec<Role>>, E>|
        {
            &&& #[trigger] read_roles.ensures((), roles)
            &&& match roles {
                Err(error) => result == Err::<Config, _>(InitError::<E>::Files(error)),
                Ok(roles) => exists|made: Result<(), E>|
                    {
                        &&& #[trigger] ensure_sessions_dir.ensures((), made)
                        &&& match made {
                            Err(error) => result == Err::<Config, _>(InitError::<E>::Files(error)),
                            Ok(_) => {
                                &&& result is Ok
                                &&& theme_detected(
                                    with_roles(before, roles),
                                    environment.light_theme,
                                    environment.colorfgbg,
                                    light_theme_from_colorfgbg,
                                    result->Ok_0,
                                )
                            },
                        }
                    },
            }
        }
}

/// Making `before` ready from where its model is to come into use.
pub open spec fn model_onwards<
    E,
    L: Fn(&Config) -> Vec<ModelInfo>,
    U: FnOnce(Session, &str) -> (Session, Result<(), String>),
    R: FnOnce() -> Result<Option<Vec<Role>>, E>,
    D: FnOnce() -> Result<(), E>,
    C: FnOnce(&str) -> Option<bool>,
>(
    before: Config,
    environment: Environment<'_>,
    list_models: L,
    set_session_model: U,
    read_roles: R,
    ensure_sessions_dir: D,
    light_theme_from_colorfgbg: C,
    result: Result<Config, InitError<E>>,
) -> bool {
    exists|chosen: Config, model: Result<(), ConfigError>|
        {
            &&& #[trigger] first_model_asked(
                at_default_temperature(before),
                list_models,
                set_session_model,
                chosen,
                model,
            )
            &&& match model {
                Err(error) => result == Err::<Config, _>(InitError::<E>::Config(error)),
                Ok(_) => furnished(
                    after_no_color(chosen, environment.no_color),
                    environment,
                    read_roles,
                    ensure_sessions_dir,
                    light_theme_from_colorfgbg,
                    result,
                ),
            }
        }
}

/// Making `before` ready from where its wrapping mode is to be checked.
pub open spec fn wrap_onwards<
    E,
    L: Fn(&Config) -> Vec<ModelInfo>,
    U: FnOnce(Session, &str) -> (Session, Result<(), String>),
    R: FnOnce() -> Result<Option<Vec<Role>>, E>,
    D: FnOnce() -> Result<(), E>,
    C: FnOnce(&str) -> Option<bool>,
>(
    before: Config,
    environment: Environment<'_>,
    list_models: L,
    set_session_model: U,
    read_roles: R,
    ensure_sessions_dir: D,
    light_theme_from_colorfgbg: C,
    result: Result<Config, InitError<E>>,
) -> bool {
    exists|wrapped: Config, wrap: Result<(), ConfigError>|
        {
            &&& #[trigger] wrap_step(before, wrapped, wrap)
            &&& match wrap {
                Err(error) => result == Err::<Config, _>(InitError::<E>::Config(error)),
                Ok(_) => model_onwards(
                    wrapped,
                    environment,
                    list_models,
                    set_session_model,
                    read_roles,
                    ensure_sessions_dir,
                    light_theme_from_colorfgbg,
                    result,
                ),
            }
        }
}

/// Making `before` ready gives `result`: each step goes on from what the one before it left, and
/// the first that fails ends it.
pub open spec fn initialised<
    E,
    L: Fn(&Config) -> Vec<ModelInfo>,
    U: FnOnce(Session, &str) -> (Session, Result<(), String>),
    R: FnOnce() -> Result<Option<Vec<Role>>, E>,
    D: FnOnce() -> Result<(), E>,
    C: FnOnce(&str) -> Option<bool>,
>(
    before: Config,
    existing: Option<&str>,
    openai: Seq<char>,
    environment: Environment<'_>,
    list_models: L,
    set_session_model: U,
    read_roles: R,
    ensure_sessions_dir: D,
    light_theme_from_colorfgbg: C,
    result: Result<Config, InitError<E>>,
) -> bool {
    exists|compatible: Config, compat: Result<(), ConfigError>|
        {
            &&& #[trigger] compat_step(before, existing, openai, compatible, compat)
            &&& match compat {
                Err(error) => result == Err::<Config, _>(InitError::<E>::Config(error)),
                Ok(_) => wrap_onwards(
                    compatible,
                    environment,
                    list_models,
                    set_session_model,
                    read_roles,
                    ensure_sessions_dir,
                    light_theme_from_colorfgbg,
                    result,
                ),
            }
        }
}

impl Config {
    /// Where the configuration comes from: a user at a terminal who has neither a key in the
    /// environment nor a file makes a file first; a key without a file makes do with the
    /// defaults; else the file is read.
    pub fn init_plan(is_interactive: bool, has_api_key: bool, config_exists: bool) -> (plan:
        InitPlan)
        ensures
            plan.create == (is_interactive && !has_api_key && !config_exists),
            plan.load == !(has_api_key && !config_exists),
    {
        InitPlan {
            create: is_interactive && !has_api_key && !config_exists,
            load: !(has_api_key && !config_exists),
        }
    }

    /// Makes `config`, the default one or the one that was read, ready: takes over the settings
    /// of `existing`, the file that was there, checks the wrapping mode, brings the default
    /// temperature and the model into use, heeds `environment`, and takes the roles that
    /// `read_roles` finds, once `ensure_sessions_dir` has made sure of the session directory.
    pub fn init<
        E,
        L: Fn(&Config) -> Vec<ModelInfo>,
        U: FnOnce(Session, &str) -> (Session, Result<(), String>),
        R: FnOnce() -> Result<Option<Vec<Role>>, E>,
        D: FnOnce() -> Result<(), E>,
        C: FnOnce(&str) -> Option<bool>,
    >(
        config: Config,
        existing: Option<&str>,
        openai: &str,
        environment: Environment<'_>,
        list_models: &L,
        set_session_model: U,
        read_roles: R,
        ensure_sessions_dir: D,
        light_theme_from_colorfgbg: C,
    ) -> (result: Result<Config, InitError<E>>)
        requires
            forall|config: &Config| (*list_models).requires((config,)),
            forall|session: Session, text: &str| set_session_model.requires((session, text)),
            read_roles.requires(()),
            ensure_sessions_dir.requires(()),
            forall|text: &str| light_theme_from_colorfgbg.requires((text,)),
        ensures
            initialised(
                config,
                existing,
                openai@,
                environment,
                *list_models,
                set_session_model,
                read_roles,
                ensure_sessions_dir,
                light_theme_from_colorfgbg,
                result,
            ),
    {
        let ghost before = config;
        let mut config = config;

        let compat = match existing {
            Some(content) => config.compat_old_config(content, openai),
            None => Ok(()),
        };
        let ghost compatible = config;
        assert(compat_step(before, existing, openai@, compatible, compat));
        if let Err(error) = compat {
            return Err(InitError::Config(error));
        }

        let wrap = match &config.wrap {
            Some(wrap) => {
                let wrap = wrap.clone();
                config.set_wrap(wrap.as_str())
            },
            None => Ok(()),
        };
        let ghost wrapped = config;
        assert(wrap_step(compatible, wrapped, wrap));
        if let Err(error) = wrap {
            return Err(InitError::Config(error));
        }

        config.temperature = config.default_temperature;
        let model = config.set_model_info(list_models, set_session_model);
        let ghost chosen = config;
        assert(first_model_asked(
            at_default_temperature(wrapped),
            *list_models,
            set_session_model,
            chosen,
            model,
        ));
        if let Err(error) = model {
            return Err(InitError::Config(error));
        }
        config.merge_env_vars(environment.no_color);

        let found = read_roles();
        assert(read_roles.ensures((), found));
        match found {
            Ok(roles) => config.load_roles(roles),
            Err(error) => {
                return Err(InitError::Files(error));
            },
        }
        let made = ensure_sessions_dir();
        assert(ensure_sessions_dir.ensures((), made));
        if let Err(error) = made {
            return Err(InitError::Files(error));
        }
        let detected = config.detect_theme(
            environment.light_theme,
            environment.colorfgbg,
            light_theme_from_colorfgbg,
        );
        match detected {
            Ok(_) => Ok(config),
            Err(error) => Err(InitError::Config(error)),
        }
    }

    /// Takes the predefined roles from their file; nothing changes where there is none.
    pub fn load_roles(&mut self, roles: Option<Vec<Role>>)
        ensures
            *final(self) == with_roles(*old(self), roles),
    {
        if let Some(roles) = roles {
            self.roles = roles;
        }
    }
}

/// What comes of the offer to make a configuration file.
#[derive(Debug)]
pub enum Setup {
    /// The user wants none, and the program ends.
    Quit,
    /// The file is to hold this text.
    Write(String),
}

/// The text of a new configuration file: the settings of the client, and the client as the model.
pub open spec fn new_file_text(raw_config: Seq<char>, client: Seq<char>) -> Seq<char> {
    raw_config + "model: "@ + client + "\n"@
}

/// Making a configuration file where the user agreed: the settings of the client that was selected
/// are asked for, and the first failure ends it.
pub open spec fn file_made<
    E,
    S: FnOnce() -> Result<String, E>,
    C: FnOnce(&str) -> Result<String, E>,
>(select_client: S, create_client_config: C, result: Result<Setup, E>) -> bool {
    exists|selected: Result<String, E>|
        {
            &&& #[trigger] select_client.ensures((), selected)
            &&& match selected {
                Err(error) => result == Err::<Setup, _>(error),
                Ok(client) => exists|name: &str, created: Result<String, E>|
                    {
                        &&& name@ == client@
                        &&& #[trigger] create_client_config.ensures((name,), created)
                        &&& match created {
                            Err(error) => result == Err::<Setup, _>(error),
                            Ok(raw_config) => {
                                &&& result matches Ok(Setup::Write(text))
                                &&& text@ == new_file_text(raw_config@, client@)
                            },
                        }
                    },
            }
        }
}

/// Makes the text of a configuration file, where `answer` says that the user wants one:
/// `select_client` asks for a client, and `create_client_config` for its settings.
pub fn create_config_file<
    E,
    S: FnOnce() -> Result<String, E>,
    C: FnOnce(&str) -> Result<String, E>,
>(answer: bool, select_client: S, create_client_config: C) -> (result: Result<Setup, E>)
    requires
        select_client.requires(()),
        forall|client: &str| create_client_config.requires((client,)),
    ensures
        !answer ==> result == Ok::<_, E>(Setup::Quit),
        answer ==> file_made(select_client, create_client_config, result),
{
    if !answer {
        return Ok(Setup::Quit);
    }
    let selected = select_client();
    assert(select_client.ensures((), selected));
    match selected {
        Err(error) => Err(error),
        Ok(client) => {
            let name = client.as_str();
            let created = create_client_config(name);
            assert(create_client_config.ensures((name,), created));
            match created {
                Err(error) => Err(error),
                Ok(raw_config) => Ok(
                    Setup::Write(raw_config.concat("model: ").concat(name).concat("\n")),
                ),
            }
        },
    }
}

/// Whether the directory above the file at `path` has to be made before the file is written;
/// an error where there is none above it. `parent_exists` is nothing where `path` has no parent.
pub fn ensure_parent_exists(path: &str, exists_there: bool, parent_exists: Option<bool>) -> (result:
    Result<bool, ConfigError>)
    ensures
        match result {
            Ok(make) => {
                &&& exists_there || parent_exists is Some
                &&& make == (!exists_there && parent_exists == Some(false))
            },
            Err(error) => {
                &&& !exists_there && parent_exists is None
                &&& error matches ConfigError::NoParent(text) && text@ == path@
            },
        },
{
    if exists_there {
        return Ok(false);
    }
    match parent_exists {
        None => Err(ConfigError::NoParent(path.to_owned())),
        Some(there) => Ok(!there),
    }
}

} // verus!
