//! What a configuration is once it is ready, and why it may not become so.
use crate::client::ModelInfo;
use crate::config::{after_no_color, Config};
use crate::error::ConfigError;
use crate::laws::old_files::{file_taken_over, lemma_file_taken_over};
use crate::laws::selection::{asked_at_the_start, lemma_asked_at_the_start};
use crate::legacy::yaml_document;
use crate::models::first_model_asked;
use crate::role::Role;
use crate::session::Session;
use crate::startup::{
    at_default_temperature, compat_step, create_config_file, ensure_parent_exists, furnished,
    model_onwards, wrap_onwards, wrap_step, Environment, InitError, InitPlan, Setup,
};
use crate::text::is_u16_text;
use vstd::prelude::*;

verus! {

/// A file is made first exactly for a user at a terminal with neither a key nor a file. The
/// configuration is read from its file, but for a user with a key and no file.
pub proof fn law_plan_goes_by_key_and_file(
    is_interactive: bool,
    has_api_key: bool,
    config_exists: bool,
    plan: InitPlan,
)
    requires
        call_ensures(Config::init_plan, (is_interactive, has_api_key, config_exists), plan),
    ensures
        plan.create <==> is_interactive && !has_api_key && !config_exists,
        plan.load <==> config_exists || !has_api_key,
{
}

/// A configuration that becomes ready keeps the wrapping mode that it had, `auto` or a width, as it
/// was given; it has none exactly where it had none or `no`.
pub proof fn law_wrap_survives_startup<
    E,
    L: Fn(&Config) -> Vec<ModelInfo>,
    U: FnOnce(Session, &str) -> (Session, Result<(), String>),
    R: FnOnce() -> Result<Option<Vec<Role>>, E>,
    D: FnOnce() -> Result<(), E>,
    C: FnOnce(&str) -> Option<bool>,
>(
    config: Config,
    existing: Option<&str>,
    openai: &str,
    environment: Environment<'_>,
    list_models: &L,
    set_session_model: U,
    read_roles: R,
    ensure_sessions_dir: D,
    light_theme_from_colorfgbg: C,
    result: Result<Config, InitError<E>>,
)
    requires
        call_ensures(
            Config::init::<E, L, U, R, D, C>,
            (
                config,
                existing,
                openai,
                environment,
                list_models,
                set_session_model,
                read_roles,
                ensure_sessions_dir,
                light_theme_from_colorfgbg,
            ),
            result,
        ),
    ensures
        result matches Ok(ready) ==> {
            &&& config.wrap is None ==> ready.wrap is None
            &&& config.wrap matches Some(wrap) ==> {
                &&& wrap@ == "no"@ ==> ready.wrap is None
                &&& wrap@ != "no"@ ==> {
                    &&& wrap@ == "auto"@ || is_u16_text(wrap@)
                    &&& ready.wrap is Some
                    &&& ready.wrap->0@ == wrap@
                }
            }
        },
        existing is None && config.wrap is Some && config.wrap->0@ != "no"@ && config.wrap->0@
            != "auto"@ && !is_u16_text(config.wrap->0@) ==> result == Err::<Config, _>(
            InitError::<E>::Config(ConfigError::InvalidWrap),
        ),
{
}

/// A configuration that becomes ready is at the temperature that it has as the default, and keeps
/// every setting that neither an old file nor the environment speaks of. The switch `highlight`
/// goes off exactly where `NO_COLOR` is `1` or `true`.
pub proof fn law_settings_survive_startup<
    E,
    L: Fn(&Config) -> Vec<ModelInfo>,
    U: FnOnce(Session, &str) -> (Session, Result<(), String>),
    R: FnOnce() -> Result<Option<Vec<Role>>, E>,
    D: FnOnce() -> Result<(), E>,
    C: FnOnce(&str) -> Option<bool>,
>(
    config: Config,
    existing: Option<&str>,
    openai: &str,
    environment: Environment<'_>,
    list_models: &L,
    set_session_model: U,
    read_roles: R,
    ensure_sessions_dir: D,
    light_theme_from_colorfgbg: C,
    result: Result<Config, InitError<E>>,
)
    requires
        call_ensures(
            Config::init::<E, L, U, R, D, C>,
            (
                config,
                existing,
                openai,
                environment,
                list_models,
                set_session_model,
                read_roles,
                ensure_sessions_dir,
                light_theme_from_colorfgbg,
            ),
            result,
        ),
    ensures
        result matches Ok(ready) ==> {
            let no_color = environment.no_color is Some && (environment.no_color->0@ == "1"@
                || environment.no_color->0@ == "true"@);
            &&& ready.temperature == config.default_temperature
            &&& ready.default_temperature == config.default_temperature
            &&& ready.save == config.save
            &&& ready.dry_run == config.dry_run
            &&& ready.wrap_code == config.wrap_code
            &&& ready.auto_copy == config.auto_copy
            &&& ready.keybindings == config.keybindings
            &&& ready.role == config.role
            &&& ready.last_message == config.last_message
            &&& config.session is None <==> ready.session is None
            &&& no_color ==> !ready.highlight
            &&& !no_color ==> ready.highlight == config.highlight
        },
{
    lemma_switch_texts();
}

proof fn lemma_switch_texts()
    ensures
        "1"@ != "0"@,
        "1"@ != "false"@,
        "true"@ != "0"@,
        "true"@ != "false"@,
{
    reveal_strlit("1");
    reveal_strlit("0");
    reveal_strlit("true");
    reveal_strlit("false");
    assert("1"@[0] != "0"@[0]);
    assert("true"@.len() == 4 && "false"@.len() == 5 && "0"@.len() == 1 && "1"@.len() == 1);
}

/// A configuration that becomes ready has the light theme where it asked for it; else where the
/// variable `light_theme` is `1` or `true`; else, where that is not set, where the colours of the
/// terminal are read as light ones.
pub proof fn law_theme_at_startup<
    E,
    L: Fn(&Config) -> Vec<ModelInfo>,
    U: FnOnce(Session, &str) -> (Session, Result<(), String>),
    R: FnOnce() -> Result<Option<Vec<Role>>, E>,
    D: FnOnce() -> Result<(), E>,
    C: FnOnce(&str) -> Option<bool>,
>(
    config: Config,
    existing: Option<&str>,
    openai: &str,
    environment: Environment<'_>,
    list_models: &L,
    set_session_model: U,
    read_roles: R,
    ensure_sessions_dir: D,
    light_theme_from_colorfgbg: C,
    result: Result<Config, InitError<E>>,
)
    requires
        call_ensures(
            Config::init::<E, L, U, R, D, C>,
            (
                config,
                existing,
                openai,
                environment,
                list_models,
                set_session_model,
                read_roles,
                ensure_sessions_dir,
                light_theme_from_colorfgbg,
            ),
            result,
        ),
    ensures
        result matches Ok(ready) ==> {
            &&& config.light_theme ==> ready.light_theme
            &&& !config.light_theme ==> {
                &&& environment.light_theme matches Some(value) ==> (ready.light_theme <==> value@
                    == "1"@ || value@ == "true"@)
                &&& environment.light_theme is None && environment.colorfgbg is None
                    ==> !ready.light_theme
                &&& environment.light_theme is None && environment.colorfgbg is Some ==> exists|
                    light: Option<bool>,
                |
                    #[trigger] light_theme_from_colorfgbg.ensures(
                        (environment.colorfgbg->0,),
                        light,
                    ) && ready.light_theme == (light == Some(true))
            }
        },
{
    lemma_switch_texts();
}

/// A configuration becomes ready only with the roles that were read, where there are any, and with
/// the directory of its sessions; what fails there is the error.
pub proof fn law_files_at_startup<
    E,
    L: Fn(&Config) -> Vec<ModelInfo>,
    U: FnOnce(Session, &str) -> (Session, Result<(), String>),
    R: FnOnce() -> Result<Option<Vec<Role>>, E>,
    D: FnOnce() -> Result<(), E>,
    C: FnOnce(&str) -> Option<bool>,
>(
    config: Config,
    existing: Option<&str>,
    openai: &str,
    environment: Environment<'_>,
    list_models: &L,
    set_session_model: U,
    read_roles: R,
    ensure_sessions_dir: D,
    light_theme_from_colorfgbg: C,
    result: Result<Config, InitError<E>>,
)
    requires
        call_ensures(
            Config::init::<E, L, U, R, D, C>,
            (
                config,
                existing,
                openai,
                environment,
                list_models,
                set_session_model,
                read_roles,
                ensure_sessions_dir,
                light_theme_from_colorfgbg,
            ),
            result,
        ),
    ensures
        result matches Ok(ready) ==> {
            &&& exists|roles: Result<Option<Vec<Role>>, E>|
                {
                    &&& #[trigger] read_roles.ensures((), roles)
                    &&& roles is Ok
                    &&& roles->Ok_0 matches Some(read) ==> ready.roles == read
                    &&& roles->Ok_0 is None ==> ready.roles == config.roles
                }
            &&& exists|made: Result<(), E>| #[trigger]
                ensure_sessions_dir.ensures((), made) && made is Ok
        },
        result matches Err(InitError::Files(error)) ==> {
            ||| exists|roles: Result<Option<Vec<Role>>, E>|
                #[trigger] read_roles.ensures((), roles) && roles == Err::<Option<Vec<Role>>, _>(
                    error,
                )
            ||| exists|made: Result<(), E>|
                #[trigger] ensure_sessions_dir.ensures((), made) && made == Err::<(), _>(error)
        },
{
}

/// `with` is `config` with the model and the clients that an old file, if there is one, leads to.
pub open spec fn brought_up_to_date(
    config: Config,
    existing: Option<&str>,
    openai: Seq<char>,
    with: Config,
) -> bool {
    &&& existing is None ==> with == config
    &&& existing matches Some(content) ==> exists|read: Result<(), ConfigError>|
        read is Ok && #[trigger] file_taken_over(config, content@, openai, with, read)
}

/// `ready` has the model in use that asking for the one to start with brought into use, of which
/// the session, if any, was told.
pub open spec fn uses_its_model<
    L: Fn(&Config) -> Vec<ModelInfo>,
    U: FnOnce(Session, &str) -> (Session, Result<(), String>),
>(asked: Config, list_models: L, set_session_model: U, ready: Config) -> bool {
    exists|chosen: Config, taken: Result<(), ConfigError>|
        {
            &&& #[trigger] asked_at_the_start(asked, list_models, set_session_model, chosen, taken)
            &&& taken is Ok
            &&& ready.model_info == chosen.model_info
            &&& ready.session == chosen.session
        }
}

proof fn lemma_model_taken_keeps_the_rest<
    L: Fn(&Config) -> Vec<ModelInfo>,
    U: FnOnce(Session, &str) -> (Session, Result<(), String>),
>(
    before: Config,
    list_models: L,
    set_session_model: U,
    after: Config,
    result: Result<(), ConfigError>,
)
    requires
        first_model_asked(before, list_models, set_session_model, after, result),
    ensures
        after == (Config { model_info: after.model_info, session: after.session, ..before }),
{
}

proof fn lemma_model_stage<
    E,
    L: Fn(&Config) -> Vec<ModelInfo>,
    U: FnOnce(Session, &str) -> (Session, Result<(), String>),
    R: FnOnce() -> Result<Option<Vec<Role>>, E>,
    D: FnOnce() -> Result<(), E>,
    C: FnOnce(&str) -> Option<bool>,
>(
    config: Config,
    environment: Environment<'_>,
    list_models: L,
    set_session_model: U,
    read_roles: R,
    ensure_sessions_dir: D,
    light_theme_from_colorfgbg: C,
    ready: Config,
)
    requires
        model_onwards(
            config,
            environment,
            list_models,
            set_session_model,
            read_roles,
            ensure_sessions_dir,
            light_theme_from_colorfgbg,
            Ok(ready),
        ),
    ensures
        ready.model == config.model,
        ready.clients == config.clients,
        ready.wrap == config.wrap,
        uses_its_model(
            at_default_temperature(config),
            list_models,
            set_session_model,
            ready,
        ),
{
    let asked = at_default_temperature(config);
    let (chosen, model) = choose|chosen: Config, model: Result<(), ConfigError>|
        {
            &&& #[trigger] first_model_asked(asked, list_models, set_session_model, chosen, model)
            &&& match model {
                Err(error) => Ok::<Config, InitError<E>>(ready) == Err::<Config, _>(
                    InitError::<E>::Config(error),
                ),
                Ok(_) => furnished(
                    after_no_color(chosen, environment.no_color),
                    environment,
                    read_roles,
                    ensure_sessions_dir,
                    light_theme_from_colorfgbg,
                    Ok(ready),
                ),
            }
        };
    lemma_model_taken_keeps_the_rest(asked, list_models, set_session_model, chosen, model);
    assert(ready.model == chosen.model && ready.clients == chosen.clients);
    assert(ready.wrap == chosen.wrap && ready.session == chosen.session);
    lemma_asked_at_the_start(asked, list_models, set_session_model, chosen, model);
}

proof fn lemma_wrap_stage<
    E,
    L: Fn(&Config) -> Vec<ModelInfo>,
    U: FnOnce(Session, &str) -> (Session, Result<(), String>),
    R: FnOnce() -> Result<Option<Vec<Role>>, E>,
    D: FnOnce() -> Result<(), E>,
    C: FnOnce(&str) -> Option<bool>,
>(
    config: Config,
    environment: Environment<'_>,
    list_models: L,
    set_session_model: U,
    read_roles: R,
    ensure_sessions_dir: D,
    light_theme_from_colorfgbg: C,
    ready: Config,
)
    requires
        wrap_onwards(
            config,
            environment,
            list_models,
            set_session_model,
            read_roles,
            ensure_sessions_dir,
            light_theme_from_colorfgbg,
            Ok(ready),
        ),
    ensures
        ready.model == config.model,
        ready.clients == config.clients,
        uses_its_model(
            Config { wrap: ready.wrap, temperature: config.default_temperature, ..config },
            list_models,
            set_session_model,
            ready,
        ),
{
    let (wrapped, wrap) = choose|wrapped: Config, wrap: Result<(), ConfigError>|
        {
            &&& #[trigger] wrap_step(config, wrapped, wrap)
            &&& match wrap {
                Err(error) => Ok::<Config, InitError<E>>(ready) == Err::<Config, _>(
                    InitError::<E>::Config(error),
                ),
                Ok(_) => model_onwards(
                    wrapped,
                    environment,
                    list_models,
                    set_session_model,
                    read_roles,
                    ensure_sessions_dir,
                    light_theme_from_colorfgbg,
                    Ok(ready),
                ),
            }
        };
    lemma_model_stage(
        wrapped,
        environment,
        list_models,
        set_session_model,
        read_roles,
        ensure_sessions_dir,
        light_theme_from_colorfgbg,
        ready,
    );
    assert(at_default_temperature(wrapped) == (Config {
        wrap: ready.wrap,
        temperature: config.default_temperature,
        ..config
    }));
}

/// A configuration becomes ready with the clients and the model name that it had, brought up to
/// date by an old file, and with the model in use that it then asks for at its default temperature.
pub proof fn law_model_at_startup<
    E,
    L: Fn(&Config) -> Vec<ModelInfo>,
    U: FnOnce(Session, &str) -> (Session, Result<(), String>),
    R: FnOnce() -> Result<Option<Vec<Role>>, E>,
    D: FnOnce() -> Result<(), E>,
    C: FnOnce(&str) -> Option<bool>,
>(
    config: Config,
    existing: Option<&str>,
    openai: &str,
    environment: Environment<'_>,
    list_models: &L,
    set_session_model: U,
    read_roles: R,
    ensure_sessions_dir: D,
    light_theme_from_colorfgbg: C,
    result: Result<Config, InitError<E>>,
)
    requires
        call_ensures(
            Config::init::<E, L, U, R, D, C>,
            (
                config,
                existing,
                openai,
                environment,
                list_models,
                set_session_model,
                read_roles,
                ensure_sessions_dir,
                light_theme_from_colorfgbg,
            ),
            result,
        ),
    ensures
        result matches Ok(ready) ==> exists|with: Config|
            {
                &&& #[trigger] brought_up_to_date(config, existing, openai@, with)
                &&& ready.model == with.model
                &&& ready.clients == with.clients
                &&& uses_its_model(
                    Config { wrap: ready.wrap, temperature: with.default_temperature, ..with },
                    *list_models,
                    set_session_model,
                    ready,
                )
            },
{
    if let Ok(ready) = result {
        let (with, compat) = choose|with: Config, compat: Result<(), ConfigError>|
            {
                &&& #[trigger] compat_step(config, existing, openai@, with, compat)
                &&& match compat {
                    Err(error) => result == Err::<Config, _>(InitError::<E>::Config(error)),
                    Ok(_) => wrap_onwards(
                        with,
                        environment,
                        *list_models,
                        set_session_model,
                        read_roles,
                        ensure_sessions_dir,
                        light_theme_from_colorfgbg,
                        result,
                    ),
                }
            };
        lemma_wrap_stage(
            with,
            environment,
            *list_models,
            set_session_model,
            read_roles,
            ensure_sessions_dir,
            light_theme_from_colorfgbg,
            ready,
        );
        lemma_compat_stage(config, existing, openai@, with, compat);
    }
}

proof fn lemma_compat_stage(
    config: Config,
    existing: Option<&str>,
    openai: Seq<char>,
    with: Config,
    compat: Result<(), ConfigError>,
)
    requires
        compat_step(config, existing, openai, with, compat),
        compat is Ok,
    ensures
        brought_up_to_date(config, existing, openai, with),
{
    if let Some(content) = existing {
        lemma_file_taken_over(config, content@, openai, with, compat);
    }
}

/// The model to start with was refused with `error`, by what was on offer or by the session.
pub open spec fn refused_its_model<
    L: Fn(&Config) -> Vec<ModelInfo>,
    U: FnOnce(Session, &str) -> (Session, Result<(), String>),
>(asked: Config, list_models: L, set_session_model: U, error: ConfigError) -> bool {
    exists|after: Config, taken: Result<(), ConfigError>|
        {
            &&& #[trigger] asked_at_the_start(asked, list_models, set_session_model, after, taken)
            &&& taken == Err::<(), _>(error)
        }
}

/// A configuration that is refused for its model asked for the one that it names, or for the first
/// on offer, brought up to date by an old file and at its default temperature.
pub proof fn law_model_refused_at_startup<
    E,
    L: Fn(&Config) -> Vec<ModelInfo>,
    U: FnOnce(Session, &str) -> (Session, Result<(), String>),
    R: FnOnce() -> Result<Option<Vec<Role>>, E>,
    D: FnOnce() -> Result<(), E>,
    C: FnOnce(&str) -> Option<bool>,
>(
    config: Config,
    existing: Option<&str>,
    openai: &str,
    environment: Environment<'_>,
    list_models: &L,
    set_session_model: U,
    read_roles: R,
    ensure_sessions_dir: D,
    light_theme_from_colorfgbg: C,
    result: Result<Config, InitError<E>>,
)
    requires
        call_ensures(
            Config::init::<E, L, U, R, D, C>,
            (
                config,
                existing,
                openai,
                environment,
                list_models,
                set_session_model,
                read_roles,
                ensure_sessions_dir,
                light_theme_from_colorfgbg,
            ),
            result,
        ),
        result is Err,
        result->Err_0 is Config,
        !(result->Err_0->Config_0 is InvalidConfig),
        !(result->Err_0->Config_0 is InvalidWrap),
    ensures
        exists|with: Config, asked: Config|
            {
                &&& #[trigger] brought_up_to_date(config, existing, openai@, with)
                &&& asked == (Config {
                    wrap: asked.wrap,
                    temperature: with.default_temperature,
                    ..with
                })
                &&& #[trigger] refused_its_model(
                    asked,
                    *list_models,
                    set_session_model,
                    result->Err_0->Config_0,
                )
            },
{
    let error = result->Err_0->Config_0;
    let (with, compat) = choose|with: Config, compat: Result<(), ConfigError>|
        {
            &&& #[trigger] compat_step(config, existing, openai@, with, compat)
            &&& match compat {
                Err(error) => result == Err::<Config, _>(InitError::<E>::Config(error)),
                Ok(_) => wrap_onwards(
                    with,
                    environment,
                    *list_models,
                    set_session_model,
                    read_roles,
                    ensure_sessions_dir,
                    light_theme_from_colorfgbg,
                    result,
                ),
            }
        };
    lemma_compat_stage(config, existing, openai@, with, compat);
    let (wrapped, wrap) = choose|wrapped: Config, wrap: Result<(), ConfigError>|
        {
            &&& #[trigger] wrap_step(with, wrapped, wrap)
            &&& match wrap {
                Err(error) => result == Err::<Config, _>(InitError::<E>::Config(error)),
                Ok(_) => model_onwards(
                    wrapped,
                    environment,
                    *list_models,
                    set_session_model,
                    read_roles,
                    ensure_sessions_dir,
                    light_theme_from_colorfgbg,
                    result,
                ),
            }
        };
    let asked = at_default_temperature(wrapped);
    let (after, taken) = choose|after: Config, taken: Result<(), ConfigError>|
        {
            &&& #[trigger] first_model_asked(asked, *list_models, set_session_model, after, taken)
            &&& match taken {
                Err(error) => result == Err::<Config, _>(InitError::<E>::Config(error)),
                Ok(_) => furnished(
                    after_no_color(after, environment.no_color),
                    environment,
                    read_roles,
                    ensure_sessions_dir,
                    light_theme_from_colorfgbg,
                    result,
                ),
            }
        };
    assert(taken == Err::<(), _>(error));
    lemma_refused(asked, *list_models, set_session_model, after, taken, error);
}

proof fn lemma_refused<
    L: Fn(&Config) -> Vec<ModelInfo>,
    U: FnOnce(Session, &str) -> (Session, Result<(), String>),
>(
    asked: Config,
    list_models: L,
    set_session_model: U,
    after: Config,
    taken: Result<(), ConfigError>,
    error: ConfigError,
)
    requires
        first_model_asked(asked, list_models, set_session_model, after, taken),
        taken == Err::<(), _>(error),
    ensures
        refused_its_model(asked, list_models, set_session_model, error),
{
    lemma_asked_at_the_start(asked, list_models, set_session_model, after, taken);
}

/// A configuration is refused only for a file that is no document, for a wrapping mode that there
/// is not, or for its model; and always for such a file.
pub proof fn law_refusals_at_startup<
    E,
    L: Fn(&Config) -> Vec<ModelInfo>,
    U: FnOnce(Session, &str) -> (Session, Result<(), String>),
    R: FnOnce() -> Result<Option<Vec<Role>>, E>,
    D: FnOnce() -> Result<(), E>,
    C: FnOnce(&str) -> Option<bool>,
>(
    config: Config,
    existing: Option<&str>,
    openai: &str,
    environment: Environment<'_>,
    list_models: &L,
    set_session_model: U,
    read_roles: R,
    ensure_sessions_dir: D,
    light_theme_from_colorfgbg: C,
    result: Result<Config, InitError<E>>,
)
    requires
        call_ensures(
            Config::init::<E, L, U, R, D, C>,
            (
                config,
                existing,
                openai,
                environment,
                list_models,
                set_session_model,
                read_roles,
                ensure_sessions_dir,
                light_theme_from_colorfgbg,
            ),
            result,
        ),
    ensures
        result matches Err(InitError::Config(error)) ==> {
            ||| {
                &&& existing is Some
                &&& yaml_document(existing->0@) matches Err(text)
                &&& error is InvalidConfig
                &&& error->InvalidConfig_0@ == text
            }
            ||| {
                &&& error is InvalidWrap
                &&& config.wrap is Some
                &&& config.wrap->0@ != "no"@
                &&& config.wrap->0@ != "auto"@
                &&& !is_u16_text(config.wrap->0@)
            }
            ||| error is NoModel
            ||| error is UnknownModel
            ||| error is Session && config.session is Some
        },
        existing is Some && yaml_document(existing->0@) is Err ==> {
            &&& result matches Err(InitError::Config(error))
            &&& error is InvalidConfig
            &&& error->InvalidConfig_0@ == yaml_document(existing->0@)->Err_0
        },
{
}

/// The roles that were read replace those that there were, and no file leaves them; nothing else
/// changes.
pub proof fn law_roles_are_loaded(config: &mut Config, roles: Option<Vec<Role>>)
    requires
        call_ensures(Config::load_roles, (config, roles), ()),
    ensures
        roles matches Some(read) ==> final(config).roles == read,
        roles is None ==> final(config).roles == old(config).roles,
        *final(config) == (Config { roles: final(config).roles, ..*old(config) }),
{
}

/// A user who wants no file ends the program. Else the file holds the settings of the client that
/// was selected, and names that client as the model behind them; what fails is the error.
pub proof fn law_new_file_names_its_client<
    E,
    S: FnOnce() -> Result<String, E>,
    C: FnOnce(&str) -> Result<String, E>,
>(answer: bool, select_client: S, create_client_config: C, result: Result<Setup, E>)
    requires
        call_ensures(
            create_config_file::<E, S, C>,
            (answer, select_client, create_client_config),
            result,
        ),
    ensures
        !answer ==> result is Ok && result->Ok_0 is Quit,
        answer ==> exists|selected: Result<String, E>|
            {
                &&& #[trigger] select_client.ensures((), selected)
                &&& selected matches Err(error) ==> result == Err::<Setup, _>(error)
                &&& selected matches Ok(client) ==> exists|name: &str, made: Result<String, E>|
                    {
                        &&& name@ == client@
                        &&& #[trigger] create_client_config.ensures((name,), made)
                        &&& made matches Err(error) ==> result == Err::<Setup, _>(error)
                        &&& made matches Ok(settings) ==> {
                            &&& result is Ok
                            &&& result->Ok_0 is Write
                            &&& result->Ok_0->Write_0@ == settings@ + "model: "@ + client@ + "\n"@
                        }
                    }
            },
{
}

/// A directory is made for a file exactly where neither the file nor the directory is there; where
/// no directory can be, that is the error, unless the file is there.
pub proof fn law_directories_are_made_where_missing(
    path: &str,
    exists_there: bool,
    parent_exists: Option<bool>,
    result: Result<bool, ConfigError>,
)
    requires
        call_ensures(ensure_parent_exists, (path, exists_there, parent_exists), result),
    ensures
        result is Ok <==> exists_there || parent_exists is Some,
        result matches Ok(make) ==> (make <==> !exists_there && !parent_exists->0),
        result matches Err(error) ==> error is NoParent && error->NoParent_0@ == path@,
{
}

} // verus!
