//! What selecting a model or a role comes to, and what is then sent.
use crate::client::{choose_model, chosen, none_chosen, ModelInfo};
use crate::config::Config;
use crate::dialogue::{admitted, built, composed, retrieved, role_changed, token_notice, SendData};
use crate::error::ConfigError;
use crate::laws::lemma_model_text_has_a_colon;
use crate::laws::wording::law_numbers_read_back;
use crate::models::{
    first_model_asked, model_asked, model_completions, model_set, model_taken, role_completions,
    session_completions, set_completions,
};
use crate::role::{first_match, no_match, Role};
use crate::session::Session;
use crate::text::{decimal_text, digits_value, texts};
use vstd::prelude::*;

verus! {

/// `value` asks for `model`: by the names of its client and its own with a colon between them, or
/// by that of its client alone.
pub open spec fn asks_for(value: Seq<char>, model: ModelInfo) -> bool {
    ||| value.contains(':') && value == model.client@ + ":"@ + model.name@
    ||| !value.contains(':') && value == model.client@
}

/// What comes of taking `model` into use: outside a session it is in use, and nothing else
/// changed. A session is told its full name; where it agrees the model is in use, and where it
/// refuses the error says why and the model that was in use stays. Nothing but the session changes
/// beside.
pub open spec fn brought_into_use<U: FnOnce(Session, &str) -> (Session, Result<(), String>)>(
    before: Config,
    model: ModelInfo,
    set_session_model: U,
    after: Config,
    result: Result<(), ConfigError>,
) -> bool {
    &&& before.session is None ==> {
        &&& result is Ok
        &&& after == (Config { model_info: model, ..before })
    }
    &&& before.session matches Some(session) ==> exists|
        full_name: &str,
        told: Session,
        outcome: Result<(), String>,
    |
        {
            &&& full_name@ == model.client@ + ":"@ + model.name@
            &&& #[trigger] set_session_model.ensures((session, full_name), (told, outcome))
            &&& outcome is Ok == result is Ok
            &&& outcome matches Err(text) ==> result == Err::<(), _>(ConfigError::Session(text))
            &&& after.session == Some(told)
            &&& after.model_info == (if outcome is Ok {
                model
            } else {
                before.model_info
            })
            &&& after == (Config {
                model_info: after.model_info,
                session: after.session,
                ..before
            })
        }
}

/// What comes of asking for a model by `value` where `models` are on offer: the first that it asks
/// for is taken into use, and where it asks for none of them the error says so and nothing changes.
pub open spec fn first_asked_for<U: FnOnce(Session, &str) -> (Session, Result<(), String>)>(
    before: Config,
    models: Seq<ModelInfo>,
    value: Seq<char>,
    set_session_model: U,
    after: Config,
    result: Result<(), ConfigError>,
) -> bool {
    &&& (forall|i: int| 0 <= i < models.len() ==> !asks_for(value, #[trigger] models[i])) ==> {
        &&& result is Err
        &&& result->Err_0 is UnknownModel
        &&& result->Err_0->UnknownModel_0@ == value
        &&& after == before
    }
    &&& forall|at: int|
        {
            &&& 0 <= at < models.len()
            &&& asks_for(value, #[trigger] models[at])
            &&& forall|i: int| 0 <= i < at ==> !asks_for(value, #[trigger] models[i])
        } ==> brought_into_use(before, models[at], set_session_model, after, result)
}

proof fn lemma_brought_into_use<U: FnOnce(Session, &str) -> (Session, Result<(), String>)>(
    before: Config,
    model: ModelInfo,
    set_session_model: U,
    after: Config,
    result: Result<(), ConfigError>,
)
    requires
        model_taken(before, model, set_session_model, after, result),
    ensures
        brought_into_use(before, model, set_session_model, after, result),
{
}

proof fn lemma_first_asked_for<U: FnOnce(Session, &str) -> (Session, Result<(), String>)>(
    before: Config,
    models: Seq<ModelInfo>,
    value: Seq<char>,
    set_session_model: U,
    after: Config,
    result: Result<(), ConfigError>,
)
    requires
        model_set(before, models, value, set_session_model, after, result),
    ensures
        first_asked_for(before, models, value, set_session_model, after, result),
{
    assert forall|i: int| 0 <= i < models.len() implies asks_for(value, #[trigger] models[i])
        == models[i].answers_to(value) by {}
    if none_chosen(models, value) {
        assert forall|i: int| 0 <= i < models.len() implies !asks_for(
            value,
            #[trigger] models[i],
        ) by {}
    } else {
        let at = choose|at: int|
            #[trigger] chosen(models, value, at) && model_taken(
                before,
                models[at],
                set_session_model,
                after,
                result,
            );
        lemma_brought_into_use(before, models[at], set_session_model, after, result);
        assert(asks_for(value, models[at]));
        assert forall|first: int|
            {
                &&& 0 <= first < models.len()
                &&& asks_for(value, #[trigger] models[first])
                &&& forall|i: int| 0 <= i < first ==> !asks_for(value, #[trigger] models[i])
            } implies brought_into_use(
            before,
            models[first],
            set_session_model,
            after,
            result,
        ) by {
            assert(first == at);
        }
    }
}

/// A model is shown by the names of its client and its own, with a colon between them, and is found
/// under what is shown unless one in front of it is shown alike.
pub proof fn law_models_are_found_as_they_are_shown(
    models: Vec<ModelInfo>,
    i: int,
    shown: String,
    value: &str,
    found: Option<usize>,
)
    requires
        0 <= i < models@.len(),
        call_ensures(ModelInfo::stringify, (&models@[i],), shown),
        call_ensures(choose_model, (&models, value), found),
    ensures
        shown@ == models@[i].client@ + ":"@ + models@[i].name@,
        asks_for(shown@, models@[i]),
        asks_for(value@, models@[i]) ==> found is Some && found->0 <= i,
        found matches Some(at) ==> {
            &&& at < models@.len()
            &&& asks_for(value@, models@[at as int])
            &&& forall|j: int| 0 <= j < at ==> !asks_for(value@, #[trigger] models@[j])
        },
{
    lemma_model_text_has_a_colon(models@[i]);
    assert forall|j: int| 0 <= j < models@.len() implies asks_for(value@, #[trigger] models@[j])
        == models@[j].answers_to(value@) by {}
}

/// What comes of asking for a model by `value` out of those that `list_models` offers.
pub open spec fn asked_out_of<
    L: Fn(&Config) -> Vec<ModelInfo>,
    U: FnOnce(Session, &str) -> (Session, Result<(), String>),
>(
    before: Config,
    value: Seq<char>,
    list_models: L,
    set_session_model: U,
    after: Config,
    result: Result<(), ConfigError>,
) -> bool {
    exists|models: Vec<ModelInfo>|
        {
            &&& #[trigger] list_models.ensures((&before,), models)
            &&& first_asked_for(before, models@, value, set_session_model, after, result)
        }
}

pub(crate) proof fn lemma_asked_out_of<
    L: Fn(&Config) -> Vec<ModelInfo>,
    U: FnOnce(Session, &str) -> (Session, Result<(), String>),
>(
    before: Config,
    value: Seq<char>,
    list_models: L,
    set_session_model: U,
    after: Config,
    result: Result<(), ConfigError>,
)
    requires
        model_asked(before, value, list_models, set_session_model, after, result),
    ensures
        asked_out_of(before, value, list_models, set_session_model, after, result),
{
    let models = choose|models: Vec<ModelInfo>|
        {
            &&& #[trigger] list_models.ensures((&before,), models)
            &&& model_set(before, models@, value, set_session_model, after, result)
        };
    lemma_first_asked_for(before, models@, value, set_session_model, after, result);
}

/// Asking for a model takes the first into use that is asked for, out of those on offer.
pub proof fn law_first_model_asked_for_is_used<
    L: Fn(&Config) -> Vec<ModelInfo>,
    U: FnOnce(Session, &str) -> (Session, Result<(), String>),
>(
    config: &mut Config,
    value: &str,
    list_models: &L,
    set_session_model: U,
    result: Result<(), ConfigError>,
)
    requires
        call_ensures(
            Config::set_model::<L, U>,
            (config, value, list_models, set_session_model),
            result,
        ),
    ensures
        asked_out_of(
            *old(config),
            value@,
            *list_models,
            set_session_model,
            *final(config),
            result,
        ),
{
    lemma_asked_out_of(
        *old(config),
        value@,
        *list_models,
        set_session_model,
        *final(config),
        result,
    );
}

/// What comes of asking for the model to start with: the one that the configuration names; where it
/// names none, the first on offer, by its full name; and where none is on offer, that is the error.
pub open spec fn asked_at_the_start<
    L: Fn(&Config) -> Vec<ModelInfo>,
    U: FnOnce(Session, &str) -> (Session, Result<(), String>),
>(
    before: Config,
    list_models: L,
    set_session_model: U,
    after: Config,
    result: Result<(), ConfigError>,
) -> bool {
    &&& before.model matches Some(value) ==> asked_out_of(
        before,
        value@,
        list_models,
        set_session_model,
        after,
        result,
    )
    &&& before.model is None ==> exists|models: Vec<ModelInfo>|
        {
            &&& #[trigger] list_models.ensures((&before,), models)
            &&& models@.len() == 0 ==> {
                &&& result == Err::<(), _>(ConfigError::NoModel)
                &&& after == before
            }
            &&& models@.len() > 0 ==> asked_out_of(
                before,
                models@[0].client@ + ":"@ + models@[0].name@,
                list_models,
                set_session_model,
                after,
                result,
            )
        }
}

pub(crate) proof fn lemma_asked_at_the_start<
    L: Fn(&Config) -> Vec<ModelInfo>,
    U: FnOnce(Session, &str) -> (Session, Result<(), String>),
>(
    before: Config,
    list_models: L,
    set_session_model: U,
    after: Config,
    result: Result<(), ConfigError>,
)
    requires
        first_model_asked(before, list_models, set_session_model, after, result),
    ensures
        asked_at_the_start(before, list_models, set_session_model, after, result),
{
    match before.model {
        Some(value) => {
            lemma_asked_out_of(before, value@, list_models, set_session_model, after, result);
        },
        None => {
            let models = choose|models: Vec<ModelInfo>|
                {
                    &&& #[trigger] list_models.ensures((&before,), models)
                    &&& if models@.len() == 0 {
                        result == Err::<(), _>(ConfigError::NoModel) && after == before
                    } else {
                        model_asked(
                            before,
                            models@[0].text(),
                            list_models,
                            set_session_model,
                            after,
                            result,
                        )
                    }
                };
            if models@.len() > 0 {
                lemma_asked_out_of(
                    before,
                    models@[0].text(),
                    list_models,
                    set_session_model,
                    after,
                    result,
                );
            }
        },
    }
}

/// The model to start with is asked for.
pub proof fn law_model_to_start_with<
    L: Fn(&Config) -> Vec<ModelInfo>,
    U: FnOnce(Session, &str) -> (Session, Result<(), String>),
>(
    config: &mut Config,
    list_models: &L,
    set_session_model: U,
    result: Result<(), ConfigError>,
)
    requires
        call_ensures(
            Config::set_model_info::<L, U>,
            (config, list_models, set_session_model),
            result,
        ),
    ensures
        asked_at_the_start(
            *old(config),
            *list_models,
            set_session_model,
            *final(config),
            result,
        ),
{
    lemma_asked_at_the_start(
        *old(config),
        *list_models,
        set_session_model,
        *final(config),
        result,
    );
}

/// The prompt completes every role, the settings, every model on offer (each of them twice)
/// and every session, each behind its command and in its order, and nothing else.
pub proof fn law_prompt_completes_what_there_is<L: Fn(&Config) -> Vec<ModelInfo>>(
    config: Config,
    list_models: &L,
    sessions: Vec<String>,
    completion: Vec<String>,
)
    requires
        call_ensures(Config::repl_completions::<L>, (&config, list_models, &sessions), completion),
    ensures
        exists|first: Vec<ModelInfo>, second: Vec<ModelInfo>|
            {
                let settings = config.roles@.len() as int;
                let models = settings + 7;
                let again = models + first@.len();
                let names = again + second@.len();
                &&& #[trigger] list_models.ensures((&config,), first)
                &&& #[trigger] list_models.ensures((&config,), second)
                &&& completion@.len() == names + sessions@.len()
                &&& forall|i: int|
                    0 <= i < settings ==> (#[trigger] completion@[i])@ == ".role "@
                        + config.roles@[i].name@
                &&& completion@[settings]@ == ".set temperature"@
                &&& completion@[settings + 1]@ == ".set save true"@
                &&& completion@[settings + 2]@ == ".set save false"@
                &&& completion@[settings + 3]@ == ".set highlight true"@
                &&& completion@[settings + 4]@ == ".set highlight false"@
                &&& completion@[settings + 5]@ == ".set dry_run true"@
                &&& completion@[settings + 6]@ == ".set dry_run false"@
                &&& forall|i: int|
                    models <= i < again ==> (#[trigger] completion@[i])@ == ".model "@ + (
                    first@[i - models].client@ + ":"@ + first@[i - models].name@)
                &&& forall|i: int|
                    again <= i < names ==> (#[trigger] completion@[i])@ == ".model "@ + (
                    second@[i - again].client@ + ":"@ + second@[i - again].name@)
                &&& forall|i: int|
                    names <= i < completion@.len() ==> (#[trigger] completion@[i])@ == ".session "@
                        + sessions@[i - names]@
            },
{
    let (first, second) = choose|first: Vec<ModelInfo>, second: Vec<ModelInfo>|
        {
            &&& #[trigger] list_models.ensures((&config,), first)
            &&& #[trigger] list_models.ensures((&config,), second)
            &&& texts(completion@) == role_completions(config.roles@) + set_completions()
                + model_completions(first@) + model_completions(second@) + session_completions(
                sessions@,
            )
        };
    let shown = texts(completion@);
    assert(shown.len() == completion@.len());
    assert(forall|i: int| 0 <= i < shown.len() ==> (#[trigger] completion@[i])@ == shown[i]);
    let settings = config.roles@.len() as int;
    assert(set_completions().len() == 7);
    assert(forall|k: int| 0 <= k < 7 ==> shown[settings + k] == #[trigger] set_completions()[k]);
    assert(shown[settings] == set_completions()[0]);
    assert(shown[settings + 1] == set_completions()[1]);
    assert(shown[settings + 2] == set_completions()[2]);
    assert(shown[settings + 3] == set_completions()[3]);
    assert(shown[settings + 4] == set_completions()[4]);
    assert(shown[settings + 5] == set_completions()[5]);
    assert(shown[settings + 6] == set_completions()[6]);
}

/// The role at `at` answers to `name`, and none in front of it does.
pub open spec fn answers_first<M: Fn(&Role, &str) -> bool>(
    roles: Seq<Role>,
    name: &str,
    match_name: M,
    at: int,
) -> bool {
    &&& 0 <= at < roles.len()
    &&& match_name.ensures((&roles[at], name), true)
    &&& forall|i: int| 0 <= i < at ==> match_name.ensures((&#[trigger] roles[i], name), false)
}

/// A role is found under a name where one answers to it: the first that does, completed by the
/// name. Else the error gives the name.
pub proof fn law_first_role_that_answers_is_found<
    M: Fn(&Role, &str) -> bool,
    C: FnOnce(Role, &str) -> Role,
>(
    config: Config,
    name: &str,
    match_name: M,
    complete_prompt_args: C,
    result: Result<Role, ConfigError>,
)
    requires
        call_ensures(
            Config::retrieve_role::<M, C>,
            (&config, name, match_name, complete_prompt_args),
            result,
        ),
    ensures
        result matches Ok(role) ==> exists|at: int|
            {
                &&& #[trigger] answers_first(config.roles@, name, match_name, at)
                &&& complete_prompt_args.ensures((config.roles@[at], name), role)
            },
        result matches Err(error) ==> {
            &&& error is UnknownRole
            &&& error->UnknownRole_0@ == name@
            &&& forall|i: int|
                0 <= i < config.roles@.len() ==> match_name.ensures(
                    (&#[trigger] config.roles@[i], name),
                    false,
                )
        },
{
    if let Ok(role) = result {
        let at = choose|at: int|
            {
                &&& #[trigger] first_match(config.roles@, name, match_name, at)
                &&& complete_prompt_args.ensures((config.roles@[at], name), role)
            };
        assert(answers_first(config.roles@, name, match_name, at));
    }
}

/// Selecting a role brings it into use, with the temperature that it asks for, once the session,
/// if any, agreed to it. Where no role answers, or the session refuses, the role and the
/// temperature stay; nothing but the session changes beside.
pub proof fn law_role_is_selected<
    M: Fn(&Role, &str) -> bool,
    C: FnOnce(Role, &str) -> Role,
    U: FnOnce(Session, Option<Role>) -> (Session, Result<(), String>),
>(
    config: &mut Config,
    name: &str,
    match_name: M,
    complete_prompt_args: C,
    update_role: U,
    result: Result<(), ConfigError>,
)
    requires
        call_ensures(
            Config::set_role::<M, C, U>,
            (config, name, match_name, complete_prompt_args, update_role),
            result,
        ),
    ensures
        result is Ok ==> {
            &&& final(config).role is Some
            &&& final(config).temperature == final(config).role->0.temperature
            &&& exists|at: int|
                {
                    &&& #[trigger] answers_first(old(config).roles@, name, match_name, at)
                    &&& complete_prompt_args.ensures(
                        (old(config).roles@[at], name),
                        final(config).role->0,
                    )
                }
            &&& old(config).session is None ==> final(config).session is None
            &&& old(config).session matches Some(session) ==> exists|
                told: Session,
                outcome: Result<(), String>,
            |
                {
                    &&& #[trigger] update_role.ensures(
                        (session, final(config).role),
                        (told, outcome),
                    )
                    &&& outcome is Ok
                    &&& final(config).session == Some(told)
                }
        },
        result matches Err(error) ==> {
            &&& final(config).role == old(config).role
            &&& final(config).temperature == old(config).temperature
            &&& error is Session || error is UnknownRole
            &&& error is UnknownRole ==> {
                &&& error->UnknownRole_0@ == name@
                &&& *final(config) == *old(config)
                &&& forall|i: int|
                    0 <= i < old(config).roles@.len() ==> match_name.ensures(
                        (&#[trigger] old(config).roles@[i], name),
                        false,
                    )
            }
            &&& error matches ConfigError::Session(text) ==> {
                &&& old(config).session is Some
                &&& exists|role: Option<Role>, told: Session, outcome: Result<(), String>|
                    {
                        &&& #[trigger] update_role.ensures(
                            (old(config).session->0, role),
                            (told, outcome),
                        )
                        &&& role is Some
                        &&& outcome == Err::<(), _>(text)
                        &&& final(config).session == Some(told)
                    }
            }
        },
        *final(config) == (Config {
            role: final(config).role,
            temperature: final(config).temperature,
            session: final(config).session,
            ..*old(config)
        }),
{
    let found = choose|found: Result<Role, ConfigError>|
        {
            &&& #[trigger] retrieved(
                old(config).roles@,
                name,
                match_name,
                complete_prompt_args,
                found,
            )
            &&& match found {
                Ok(role) => role_changed(
                    *old(config),
                    Some(role),
                    role.temperature,
                    update_role,
                    *final(config),
                    result,
                ),
                Err(error) => {
                    &&& result == Err::<(), _>(error)
                    &&& *final(config) == *old(config)
                },
            }
        };
    if let Ok(role) = found {
        let at = choose|at: int|
            {
                &&& #[trigger] first_match(old(config).roles@, name, match_name, at)
                &&& complete_prompt_args.ensures((old(config).roles@[at], name), role)
            };
        assert(answers_first(old(config).roles@, name, match_name, at));
    } else {
        assert(no_match(old(config).roles@, name, match_name));
    }
}

/// Leaving the role brings the default temperature back into use, once the session, if any, agreed
/// to it; where it refuses, the role and the temperature stay. Nothing but the session changes
/// beside.
pub proof fn law_role_is_left<
    U: FnOnce(Session, Option<Role>) -> (Session, Result<(), String>),
>(config: &mut Config, update_role: U, result: Result<(), ConfigError>)
    requires
        call_ensures(Config::clear_role::<U>, (config, update_role), result),
    ensures
        old(config).session is None ==> result is Ok && final(config).session is None,
        result is Ok ==> {
            &&& final(config).role is None
            &&& final(config).temperature == old(config).default_temperature
        },
        result is Err ==> {
            &&& final(config).role == old(config).role
            &&& final(config).temperature == old(config).temperature
        },
        old(config).session matches Some(session) ==> exists|
            told: Session,
            outcome: Result<(), String>,
        |
            {
                &&& #[trigger] update_role.ensures((session, None), (told, outcome))
                &&& final(config).session == Some(told)
                &&& outcome is Ok == result is Ok
                &&& outcome matches Err(text) ==> result == Err::<(), _>(
                    ConfigError::Session(text),
                )
            },
        *final(config) == (Config {
            role: final(config).role,
            temperature: final(config).temperature,
            session: final(config).session,
            ..*old(config)
        }),
{
}

/// An input is echoed in the words of the session where one is under way, else of the role where
/// one is selected, else as it is.
pub proof fn law_echo_goes_by_session_then_role<
    S: FnOnce(&Session, &str) -> String,
    R: FnOnce(&Role, &str) -> String,
>(config: Config, content: &str, session_echo: S, role_echo: R, echo: String)
    requires
        call_ensures(
            Config::echo_messages::<S, R>,
            (&config, content, session_echo, role_echo),
            echo,
        ),
    ensures
        config.session matches Some(session) ==> session_echo.ensures((&session, content), echo),
        config.session is None && config.role is Some ==> role_echo.ensures(
            (&config.role->0, content),
            echo,
        ),
        config.session is None && config.role is None ==> echo@ == content@,
{
}

/// `messages` are those of the session where one is under way, else of the role where one is
/// selected, else the one message that the input makes.
pub open spec fn messages_for<
    T,
    S: FnOnce(&Session, &str) -> Vec<T>,
    R: FnOnce(&Role, &str) -> Vec<T>,
    P: FnOnce(&str) -> T,
>(
    config: Config,
    content: &str,
    session_messages: S,
    role_messages: R,
    new_message: P,
    messages: Vec<T>,
) -> bool {
    &&& config.session matches Some(session) ==> session_messages.ensures(
        (&session, content),
        messages,
    )
    &&& config.session is None && config.role is Some ==> role_messages.ensures(
        (&config.role->0, content),
        messages,
    )
    &&& config.session is None && config.role is None ==> {
        &&& messages@.len() == 1
        &&& new_message.ensures((content,), messages@[0])
    }
}

/// Messages are built exactly where they take fewer tokens than the model in use has.
pub proof fn law_messages_fit_the_model<
    T,
    S: FnOnce(&Session, &str) -> Vec<T>,
    R: FnOnce(&Role, &str) -> Vec<T>,
    P: FnOnce(&str) -> T,
    N: Fn(&Vec<T>) -> usize,
>(
    config: Config,
    content: &str,
    session_messages: S,
    role_messages: R,
    new_message: P,
    num_tokens: &N,
    result: Result<Vec<T>, ConfigError>,
)
    requires
        call_ensures(
            Config::build_messages::<T, S, R, P, N>,
            (&config, content, session_messages, role_messages, new_message, num_tokens),
            result,
        ),
    ensures
        exists|messages: Vec<T>, tokens: usize|
            {
                &&& messages_for(
                    config,
                    content,
                    session_messages,
                    role_messages,
                    new_message,
                    messages,
                )
                &&& #[trigger] num_tokens.ensures((&messages,), tokens)
                &&& tokens < config.model_info.max_tokens ==> result == Ok::<_, ConfigError>(
                    messages,
                )
                &&& tokens >= config.model_info.max_tokens ==> result == Err::<Vec<T>, _>(
                    ConfigError::ExceedMaxTokens,
                )
            },
{
    lemma_built(
        config,
        content,
        session_messages,
        role_messages,
        new_message,
        *num_tokens,
        result,
    );
}

proof fn lemma_built<
    T,
    S: FnOnce(&Session, &str) -> Vec<T>,
    R: FnOnce(&Role, &str) -> Vec<T>,
    P: FnOnce(&str) -> T,
    N: Fn(&Vec<T>) -> usize,
>(
    config: Config,
    content: &str,
    session_messages: S,
    role_messages: R,
    new_message: P,
    num_tokens: N,
    result: Result<Vec<T>, ConfigError>,
)
    requires
        built(config, content, session_messages, role_messages, new_message, num_tokens, result),
    ensures
        exists|messages: Vec<T>, tokens: usize|
            {
                &&& messages_for(
                    config,
                    content,
                    session_messages,
                    role_messages,
                    new_message,
                    messages,
                )
                &&& #[trigger] num_tokens.ensures((&messages,), tokens)
                &&& tokens < config.model_info.max_tokens ==> result == Ok::<_, ConfigError>(
                    messages,
                )
                &&& tokens >= config.model_info.max_tokens ==> result == Err::<Vec<T>, _>(
                    ConfigError::ExceedMaxTokens,
                )
            },
{
    let (messages, tokens) = choose|messages: Vec<T>, tokens: usize|
        {
            &&& composed(config, content, session_messages, role_messages, new_message, messages)
            &&& #[trigger] num_tokens.ensures((&messages,), tokens)
            &&& result == admitted(config, messages, tokens)
        };
    assert(messages_for(
        config,
        content,
        session_messages,
        role_messages,
        new_message,
        messages,
    ));
}

/// What is sent holds the messages for the input, the temperature in use and the wish for a
/// stream, and nothing is sent that has as many tokens as the model, or more.
pub proof fn law_what_is_sent<
    T,
    S: FnOnce(&Session, &str) -> Vec<T>,
    R: FnOnce(&Role, &str) -> Vec<T>,
    P: FnOnce(&str) -> T,
    N: Fn(&Vec<T>) -> usize,
>(
    config: Config,
    content: &str,
    stream: bool,
    session_messages: S,
    role_messages: R,
    new_message: P,
    num_tokens: &N,
    result: Result<SendData<T>, ConfigError>,
)
    requires
        call_ensures(
            Config::prepare_send_data::<T, S, R, P, N>,
            (&config, content, stream, session_messages, role_messages, new_message, num_tokens),
            result,
        ),
    ensures
        result matches Ok(data) ==> data.temperature == config.temperature && data.stream == stream,
        exists|messages: Vec<T>, tokens: usize|
            {
                &&& messages_for(
                    config,
                    content,
                    session_messages,
                    role_messages,
                    new_message,
                    messages,
                )
                &&& #[trigger] num_tokens.ensures((&messages,), tokens)
                &&& tokens < config.model_info.max_tokens ==> result is Ok
                    && result->Ok_0.messages == messages
                &&& tokens >= config.model_info.max_tokens ==> result == Err::<SendData<T>, _>(
                    ConfigError::ExceedMaxTokens,
                )
            },
{
    let messages = choose|messages: Result<Vec<T>, ConfigError>|
        {
            &&& #[trigger] built(
                config,
                content,
                session_messages,
                role_messages,
                new_message,
                *num_tokens,
                messages,
            )
            &&& result == (match messages {
                Ok(messages) => Ok(SendData { messages, temperature: config.temperature, stream }),
                Err(error) => Err(error),
            })
        };
    lemma_built(
        config,
        content,
        session_messages,
        role_messages,
        new_message,
        *num_tokens,
        messages,
    );
}

/// How many tokens an input takes is told in a dry run, where the messages can be sent, and never
/// otherwise; what is told is the number that they were counted as.
pub proof fn law_tokens_are_told_in_a_dry_run<
    T,
    S: FnOnce(&Session, &str) -> Vec<T>,
    R: FnOnce(&Role, &str) -> Vec<T>,
    P: FnOnce(&str) -> T,
    N: Fn(&Vec<T>) -> usize,
>(
    config: Config,
    input: &str,
    session_messages: S,
    role_messages: R,
    new_message: P,
    num_tokens: &N,
    line: Option<String>,
)
    requires
        call_ensures(
            Config::maybe_print_send_tokens::<T, S, R, P, N>,
            (&config, input, session_messages, role_messages, new_message, num_tokens),
            line,
        ),
    ensures
        !config.dry_run ==> line is None,
        config.dry_run ==> exists|messages: Vec<T>, tokens: usize|
            {
                &&& messages_for(
                    config,
                    input,
                    session_messages,
                    role_messages,
                    new_message,
                    messages,
                )
                &&& #[trigger] num_tokens.ensures((&messages,), tokens)
                &&& tokens >= config.model_info.max_tokens ==> line is None
                &&& tokens < config.model_info.max_tokens ==> exists|
                    counted: usize,
                    digits: Seq<char>,
                |
                    {
                        &&& #[trigger] num_tokens.ensures((&messages,), counted)
                        &&& #[trigger] digits_value(digits) == counted
                        &&& forall|i: int|
                            0 <= i < digits.len() ==> 48 <= (#[trigger] digits[i]) as int <= 57
                        &&& digits.len() > 0
                        &&& counted > 0 ==> digits[0] != '0'
                        &&& line is Some
                        &&& line->0@ == ">>> This message consumes "@ + digits
                            + " tokens. <<<"@
                    }
            },
{
    if config.dry_run {
        let messages = choose|messages: Result<Vec<T>, ConfigError>|
            {
                &&& #[trigger] built(
                    config,
                    input,
                    session_messages,
                    role_messages,
                    new_message,
                    *num_tokens,
                    messages,
                )
                &&& match messages {
                    Ok(messages) => exists|tokens: usize|
                        {
                            &&& #[trigger] (*num_tokens).ensures((&messages,), tokens)
                            &&& line is Some
                            &&& line->0@ == token_notice(tokens as nat)
                        },
                    Err(_) => line is None,
                }
            };
        lemma_built(
            config,
            input,
            session_messages,
            role_messages,
            new_message,
            *num_tokens,
            messages,
        );
        if let Ok(sent) = messages {
            let counted = choose|counted: usize|
                {
                    &&& #[trigger] (*num_tokens).ensures((&sent,), counted)
                    &&& line is Some
                    &&& line->0@ == token_notice(counted as nat)
                };
            let digits = decimal_text(counted as nat);
            law_numbers_read_back(counted as nat);
            assert(digits_value(digits) == counted);
        }
    }
}

} // verus!
