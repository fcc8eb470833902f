//! What holds of the configuration as a whole.
use crate::client::{chosen, ModelInfo};
use crate::config::{
    after_no_color, env_flag_of, updated, with_temperature, wrap_set, Config,
};
use crate::dialogue::{admitted, built, composed, retrieved, role_changed};
use crate::error::ConfigError;
use crate::info::{paths_seen, InfoPaths, PathState};
use crate::keybindings::Keybindings;
use crate::legacy::{clients_with, legacy_applied, text_view, LegacyFields};
use crate::models::{
    first_model_asked, model_asked, model_completions, model_set, model_taken, role_completions,
    set_completions,
};
use crate::paths::{session_file_name, LocalPath, Surroundings};
use crate::role::{Role, Temperature};
use crate::session::{Session, StartStep};
use crate::sessions::{
    out_of_session, session_name_of, session_names, session_opened, step_after_opening,
};
use crate::startup::{initialised, Environment};
use crate::text::{is_space, is_u16_text, lemma_word_len, words_of};
use vstd::prelude::*;

pub mod conversation;
pub mod display;
pub mod old_files;
pub mod readiness;
pub mod selection;
pub mod settings;
pub mod wording;

verus! {

/// A temperature that was set is the one in use, in the session too, and of two that were set
/// the later one counts.
pub proof fn law_temperature_reads_back(
    config: Config,
    first: Option<Temperature>,
    second: Option<Temperature>,
)
    ensures
        with_temperature(config, first).temperature == first,
        config.session is Some ==> {
            let session = with_temperature(config, first).session;
            session is Some && session->0.temperature == first
        },
        with_temperature(with_temperature(config, first), second) == with_temperature(
            config,
            second,
        ),
{
}

/// A setting that is refused changes nothing.
pub proof fn law_refused_update_changes_nothing<N: FnOnce(&str) -> Option<Temperature>>(
    before: Config,
    data: Seq<char>,
    parse_temperature: N,
    after: Config,
    result: Result<(), ConfigError>,
)
    requires
        updated(before, data, parse_temperature, after, result),
        result is Err,
    ensures
        after == before,
{
}

/// A setting changes three switches and the temperature in use, and nothing else.
pub proof fn law_update_keeps_the_rest<N: FnOnce(&str) -> Option<Temperature>>(
    before: Config,
    data: Seq<char>,
    parse_temperature: N,
    after: Config,
    result: Result<(), ConfigError>,
)
    requires
        updated(before, data, parse_temperature, after, result),
    ensures
        after == (Config {
            save: after.save,
            highlight: after.highlight,
            dry_run: after.dry_run,
            temperature: after.temperature,
            session: after.session,
            ..before
        }),
        match before.session {
            Some(session) => after.session == Some(
                Session { temperature: after.session->0.temperature, ..session },
            ),
            None => after.session is None,
        },
{
}

/// A word: at least one character, and no white space.
pub open spec fn is_word(s: Seq<char>) -> bool {
    s.len() > 0 && forall|i: int| 0 <= i < s.len() ==> !is_space(#[trigger] s[i])
}

/// Two words with a space between them are read as those two words.
pub proof fn law_key_and_value_are_told_apart(key: Seq<char>, value: Seq<char>)
    requires
        is_word(key),
        is_word(value),
    ensures
        words_of(key + seq![' '] + value) == seq![key, value],
{
    let s = key + seq![' '] + value;
    let tail = seq![' '] + value;
    assert forall|i: int| 0 <= i < key.len() implies !is_space(#[trigger] s[i]) by {
        assert(s[i] == key[i]);
    }
    assert(s[key.len() as int] == ' ');
    lemma_word_len(s, key.len() as int);
    assert(s.take(key.len() as int) =~= key);
    assert(s.skip(key.len() as int) =~= tail);
    assert(tail.skip(1) =~= value);
    lemma_word_len(value, value.len() as int);
    assert(value.take(value.len() as int) =~= value);
    assert(value.skip(value.len() as int) =~= Seq::empty());
    assert(!is_space(value[0]));
    assert(words_of(Seq::<char>::empty()) =~= Seq::empty());
    assert(words_of(value) =~= seq![value]);
    assert(words_of(tail) == seq![value]);
    assert(words_of(s) =~= seq![key, value]);
}

/// The part of an offered setting that follows the command.
pub open spec fn offered_setting(i: int) -> Seq<char> {
    set_completions()[i].skip(".set "@.len() as int)
}

proof fn lemma_offered_setting(i: int)
    requires
        1 <= i < set_completions().len(),
    ensures
        ({
            let key = if i <= 2 {
                "save"@
            } else if i <= 4 {
                "highlight"@
            } else {
                "dry_run"@
            };
            let value = if i % 2 == 1 {
                "true"@
            } else {
                "false"@
            };
            words_of(offered_setting(i)) == seq![key, value]
        }),
{
    reveal_strlit(".set ");
    reveal_strlit(".set save true");
    reveal_strlit(".set save false");
    reveal_strlit(".set highlight true");
    reveal_strlit(".set highlight false");
    reveal_strlit(".set dry_run true");
    reveal_strlit(".set dry_run false");
    reveal_strlit("save");
    reveal_strlit("highlight");
    reveal_strlit("dry_run");
    reveal_strlit("true");
    reveal_strlit("false");
    let key = if i <= 2 {
        "save"@
    } else if i <= 4 {
        "highlight"@
    } else {
        "dry_run"@
    };
    let value = if i % 2 == 1 {
        "true"@
    } else {
        "false"@
    };
    assert(offered_setting(i) =~= key + seq![' '] + value);
    law_key_and_value_are_told_apart(key, value);
}

/// Every setting that the prompt offers with a value is accepted, and gives the switch that
/// value.
pub proof fn law_offered_settings_are_accepted<N: FnOnce(&str) -> Option<Temperature>>(
    i: int,
    before: Config,
    parse_temperature: N,
    after: Config,
    result: Result<(), ConfigError>,
)
    requires
        1 <= i < set_completions().len(),
        updated(before, offered_setting(i), parse_temperature, after, result),
    ensures
        result is Ok,
        i <= 2 ==> after.save == (i % 2 == 1),
        2 < i <= 4 ==> after.highlight == (i % 2 == 1),
        4 < i ==> after.dry_run == (i % 2 == 1),
{
    lemma_offered_setting(i);
    reveal_strlit("temperature");
    reveal_strlit("save");
    reveal_strlit("highlight");
    reveal_strlit("dry_run");
    reveal_strlit("true");
    reveal_strlit("false");
    assert("temperature"@.len() == 11);
    assert("save"@.len() == 4);
    assert("highlight"@.len() == 9);
    assert("dry_run"@.len() == 7);
    assert("true"@.len() == 4);
    assert("false"@.len() == 5);
}

/// The value `null` unsets the temperature, in the session too.
pub proof fn law_null_unsets_the_temperature<N: FnOnce(&str) -> Option<Temperature>>(
    data: Seq<char>,
    before: Config,
    parse_temperature: N,
    after: Config,
    result: Result<(), ConfigError>,
)
    requires
        words_of(data) == seq!["temperature"@, "null"@],
        updated(before, data, parse_temperature, after, result),
    ensures
        result is Ok,
        after == with_temperature(before, None),
{
}

/// A wrapping mode that was accepted is accepted again, and stays.
pub proof fn law_accepted_wrap_is_accepted_again(
    before: Config,
    value: Seq<char>,
    config: Config,
    after: Config,
    result: Result<(), ConfigError>,
)
    requires
        wrap_set(before, value, config, Ok(())),
        config.wrap is Some,
        wrap_set(config, config.wrap->0@, after, result),
    ensures
        config.wrap->0@ == "auto"@ || is_u16_text(config.wrap->0@),
        result is Ok,
        after.wrap is Some && after.wrap->0@ == config.wrap->0@,
{
}

pub(crate) proof fn lemma_model_text_has_a_colon(model: ModelInfo)
    ensures
        model.text().contains(':'),
        model.answers_to(model.text()),
{
    reveal_strlit(":");
    assert(model.text()[model.client@.len() as int] == ':');
}

/// Every model that is on offer can be chosen under its full name, outside a session, and the
/// model that comes into use has that name.
pub proof fn law_offered_models_can_be_chosen<
    U: FnOnce(Session, &str) -> (Session, Result<(), String>),
>(
    models: Seq<ModelInfo>,
    i: int,
    before: Config,
    set_session_model: U,
    after: Config,
    result: Result<(), ConfigError>,
)
    requires
        0 <= i < models.len(),
        before.session is None,
        model_set(before, models, models[i].text(), set_session_model, after, result),
    ensures
        model_completions(models)[i] == ".model "@ + models[i].text(),
        models[i].text().contains(':'),
        result is Ok,
        after.model_info.text() == models[i].text(),
{
    lemma_model_text_has_a_colon(models[i]);
}

/// No model in front of the one that `value` chooses has its full name. This is so of every
/// `value` with a colon; else only a client with a colon in its own name can stand in the way.
pub open spec fn unrivalled(models: Seq<ModelInfo>, value: Seq<char>) -> bool {
    forall|at: int, i: int|
        #![trigger chosen(models, value, at), models[i]]
        chosen(models, value, at) && 0 <= i < at ==> models[i].text() != models[at].text()
}

/// Outside a session, choosing the model in use again, under its full name, changes nothing.
pub proof fn law_model_in_use_can_be_chosen_again<
    U: FnOnce(Session, &str) -> (Session, Result<(), String>),
    V: FnOnce(Session, &str) -> (Session, Result<(), String>),
>(
    models: Seq<ModelInfo>,
    value: Seq<char>,
    before: Config,
    first: U,
    once: Config,
    second: V,
    twice: Config,
    result: Result<(), ConfigError>,
)
    requires
        value.contains(':') || unrivalled(models, value),
        before.session is None,
        model_set(before, models, value, first, once, Ok(())),
        model_set(once, models, once.model_info.text(), second, twice, result),
    ensures
        result is Ok,
        twice == once,
{
    let at = choose|at: int|
        #[trigger] chosen(models, value, at) && model_taken(before, models[at], first, once, Ok(()));
    let text = models[at].text();
    lemma_model_text_has_a_colon(models[at]);
    assert forall|i: int| 0 <= i < at implies !(#[trigger] models[i]).answers_to(text) by {
        assert(!models[i].answers_to(value));
    }
    assert(chosen(models, text, at));
    let again = choose|again: int|
        #[trigger] chosen(models, text, again) && model_taken(
            once,
            models[again],
            second,
            twice,
            result,
        );
    assert(again == at);
}

/// Outside a session, every model that `list_models` offers, and the prompt so completes, is
/// accepted under its full name: the model in use then has that name and nothing else changed.
/// Asking for that one again, under the name that it shows, is accepted and changes nothing. The
/// same models are taken to be on offer both times.
pub proof fn law_offered_model_is_accepted_and_stays<
    L: Fn(&Config) -> Vec<ModelInfo>,
    U: FnOnce(Session, &str) -> (Session, Result<(), String>),
    V: FnOnce(Session, &str) -> (Session, Result<(), String>),
>(
    before: Config,
    models: Seq<ModelInfo>,
    i: int,
    list_models: L,
    first: U,
    once: Config,
    accepted: Result<(), ConfigError>,
    second: V,
    twice: Config,
    accepted_again: Result<(), ConfigError>,
)
    requires
        before.session is None,
        0 <= i < models.len(),
        forall|listed: Vec<ModelInfo>| #[trigger]
            list_models.ensures((&before,), listed) ==> listed@ == models,
        forall|listed: Vec<ModelInfo>| #[trigger]
            list_models.ensures((&once,), listed) ==> listed@ == models,
        model_asked(before, models[i].text(), list_models, first, once, accepted),
        model_asked(once, once.model_info.text(), list_models, second, twice, accepted_again),
    ensures
        model_completions(models)[i] == ".model "@ + models[i].text(),
        accepted is Ok,
        models.contains(once.model_info),
        once.model_info.text() == models[i].text(),
        once == (Config { model_info: once.model_info, ..before }),
        accepted_again is Ok,
        twice == once,
{
    law_offered_models_can_be_chosen(models, i, before, first, once, accepted);
    law_model_in_use_was_asked_for(models, models[i].text(), before, first, once, accepted);
    law_model_in_use_can_be_chosen_again(
        models,
        models[i].text(),
        before,
        first,
        once,
        second,
        twice,
        accepted_again,
    );
}

/// A model comes into use only where it is on offer and answers to what was asked for, and a
/// refusal leaves the one in use.
pub proof fn law_model_in_use_was_asked_for<
    U: FnOnce(Session, &str) -> (Session, Result<(), String>),
>(
    models: Seq<ModelInfo>,
    value: Seq<char>,
    before: Config,
    set_session_model: U,
    after: Config,
    result: Result<(), ConfigError>,
)
    requires
        model_set(before, models, value, set_session_model, after, result),
    ensures
        result is Ok ==> models.contains(after.model_info) && after.model_info.answers_to(value),
        result is Err ==> after.model_info == before.model_info,
{
}

/// Where the configuration names no model, the first on offer comes into use, and only where
/// none is on offer nothing does.
pub proof fn law_first_offered_model_is_the_default<
    L: Fn(&Config) -> Vec<ModelInfo>,
    U: FnOnce(Session, &str) -> (Session, Result<(), String>),
>(
    before: Config,
    models: Seq<ModelInfo>,
    list_models: L,
    set_session_model: U,
    after: Config,
    result: Result<(), ConfigError>,
)
    requires
        before.model is None,
        before.session is None,
        forall|listed: Vec<ModelInfo>| #[trigger]
            list_models.ensures((&before,), listed) ==> listed@ == models,
        first_model_asked(before, list_models, set_session_model, after, result),
    ensures
        models.len() == 0 ==> result == Err::<(), _>(ConfigError::NoModel) && after == before,
        models.len() > 0 ==> result is Ok && after == (Config { model_info: models[0], ..before }),
{
    if models.len() > 0 {
        lemma_model_text_has_a_colon(models[0]);
        assert(model_asked(
            before,
            models[0].text(),
            list_models,
            set_session_model,
            after,
            result,
        ));
        let at = choose|at: int|
            #[trigger] chosen(models, models[0].text(), at) && model_taken(
                before,
                models[at],
                set_session_model,
                after,
                result,
            );
        assert(at == 0);
    }
}

/// Every role that is offered is found under its name, provided that it answers to it.
pub proof fn law_offered_roles_are_found<
    M: Fn(&Role, &str) -> bool,
    C: FnOnce(Role, &str) -> Role,
>(
    roles: Seq<Role>,
    i: int,
    name: &str,
    match_name: M,
    complete_prompt_args: C,
    result: Result<Role, ConfigError>,
)
    requires
        0 <= i < roles.len(),
        name@ == roles[i].name@,
        !match_name.ensures((&roles[i], name), false),
        retrieved(roles, name, match_name, complete_prompt_args, result),
    ensures
        role_completions(roles)[i] == ".role "@ + name@,
        result is Ok,
{
}

/// A role that was selected brings its temperature; leaving it brings back the default one, and
/// nothing else is left of it outside the session.
pub proof fn law_clearing_a_role_undoes_it<
    U: FnOnce(Session, Option<Role>) -> (Session, Result<(), String>),
    V: FnOnce(Session, Option<Role>) -> (Session, Result<(), String>),
>(before: Config, role: Role, set: U, with_role: Config, clear: V, after: Config)
    requires
        role_changed(before, Some(role), role.temperature, set, with_role, Ok(())),
        role_changed(
            with_role,
            None,
            with_role.default_temperature,
            clear,
            after,
            Ok(()),
        ),
    ensures
        with_role.role == Some(role),
        with_role.temperature == role.temperature,
        after == (Config {
            role: None,
            temperature: before.default_temperature,
            session: after.session,
            ..before
        }),
        before.session is None == after.session is None,
{
}

/// A session that refuses a change of role keeps the configuration at the role and the
/// temperature that it had.
pub proof fn law_refused_role_stays_out<
    U: FnOnce(Session, Option<Role>) -> (Session, Result<(), String>),
>(
    before: Config,
    role: Option<Role>,
    temperature: Option<Temperature>,
    update_role: U,
    after: Config,
    result: Result<(), ConfigError>,
)
    requires
        role_changed(before, role, temperature, update_role, after, result),
        result is Err,
    ensures
        before.session is Some,
        after.role == before.role,
        after.temperature == before.temperature,
{
}

/// A session that was opened and ended leaves the configuration as it was, without the last
/// message and at the default temperature, and open to the next session.
pub proof fn law_ending_a_session_undoes_it<N: FnOnce(&str, &str, Option<Role>) -> Session>(
    before: Config,
    name: Seq<char>,
    new_session: N,
    opened: Config,
)
    requires
        before.session is None,
        session_opened(before, name, new_session, opened),
    ensures
        opened.session is Some,
        out_of_session(opened) == out_of_session(before),
        out_of_session(opened).session is None,
{
}

/// A session that was opened empty is offered the last message, where there is one.
pub proof fn law_empty_session_is_offered_the_last_message<
    N: FnOnce(&str, &str, Option<Role>) -> Session,
>(before: Config, name: Seq<char>, new_session: N, opened: Config)
    requires
        session_opened(before, name, new_session, opened),
    ensures
        opened.last_message == before.last_message,
        step_after_opening(opened) == (if opened.session->0.is_empty && before.last_message is Some {
            StartStep::Ask
        } else {
            StartStep::Started
        }),
{
}

/// The file of a session is listed under the name of the session, and no other file is.
pub proof fn law_session_files_read_back(name: Seq<char>, file: Seq<char>)
    ensures
        session_name_of(session_file_name(name)) == Some(name),
        session_name_of(file) == Some(name) ==> file == session_file_name(name),
{
    let suffix = ".yaml"@;
    let made = session_file_name(name);
    assert(made.subrange(made.len() - suffix.len(), made.len() as int) =~= suffix);
    assert(made.take(made.len() - suffix.len()) =~= name);
    if session_name_of(file) == Some(name) {
        assert(file =~= name + suffix);
    }
}

/// A session is listed where its file is in the directory, and only there.
pub proof fn law_listed_sessions_have_files(files: Seq<Seq<char>>, name: Seq<char>)
    ensures
        session_names(files).contains(name) <==> files.contains(session_file_name(name)),
    decreases files.len(),
{
    if files.len() > 0 {
        let front = files.drop_last();
        law_listed_sessions_have_files(front, name);
        law_session_files_read_back(name, files.last());
        assert(files =~= front.push(files.last()));
        let file = session_file_name(name);
        assert(files.contains(file) <==> front.contains(file) || files.last() == file) by {
            if front.contains(file) {
                let i = choose|i: int| 0 <= i < front.len() && front[i] == file;
                assert(files[i] == file);
            }
            if files.last() == file {
                assert(files[files.len() - 1] == file);
            }
        }
        let listed = session_names(front);
        match session_name_of(files.last()) {
            Some(last) => {
                assert(listed.push(last).contains(name) <==> listed.contains(name) || last
                    == name) by {
                    if listed.contains(name) {
                        let i = choose|i: int| 0 <= i < listed.len() && listed[i] == name;
                        assert(listed.push(last)[i] == name);
                    }
                    if last == name {
                        assert(listed.push(last)[listed.len() as int] == name);
                    }
                }
            },
            None => {},
        }
    }
}

/// The places that the configuration uses are there to be shown whenever a directory is known, be
/// it from a variable or from the platform; else the directory is what is missed.
pub proof fn law_known_directory_is_shown<
    P,
    A: Fn() -> Surroundings<P>,
    K: Fn(LocalPath<P>) -> PathState,
>(around: A, look: K, result: Result<InfoPaths, ConfigError>)
    requires
        paths_seen(around, look, result),
    ensures
        (forall|here: Surroundings<P>| #[trigger]
            around.ensures((), here) ==> here.config_dir is Some || here.user_config_dir is Some)
            ==> result is Ok,
        result matches Err(error) ==> error == ConfigError::NoConfigDir,
{
}

/// The names of the key bindings tell them apart.
pub proof fn law_key_bindings_differ_by_name(one: Keybindings, other: Keybindings)
    ensures
        one.text() == other.text() <==> one == other,
{
    reveal_strlit("emacs");
    reveal_strlit("vi");
    assert("emacs"@.len() != "vi"@.len());
}

/// The key bindings to start with are not those of vi: they do not have that name, and are not
/// taken for them.
pub proof fn law_default_key_bindings_are_not_vi(keys: Keybindings, vi: bool)
    requires
        call_ensures(<Keybindings as Default>::default, (), keys),
        call_ensures(Keybindings::is_vi, (&keys,), vi),
    ensures
        keys != Keybindings::Vi,
        keys.text() != "vi"@,
        !vi,
{
    law_key_bindings_differ_by_name(keys, Keybindings::Vi);
}

/// The variable `NO_COLOR` never sets the switch `highlight` to true, and changes nothing else.
/// Highlighting is disabled while the switch is true, so the variable never takes a theme away.
pub proof fn law_no_color_only_sets_to_false(config: Config, no_color: Option<&str>)
    ensures
        after_no_color(config, no_color).highlight ==> config.highlight,
        after_no_color(config, no_color) == (Config {
            highlight: after_no_color(config, no_color).highlight,
            ..config
        }),
{
}

/// Messages that are sent take fewer tokens than the model has, and are those of the session, of
/// the role or of the input alone.
pub proof fn law_nothing_over_the_limit_is_sent<
    T,
    S: FnOnce(&Session, &str) -> Vec<T>,
    R: FnOnce(&Role, &str) -> Vec<T>,
    P: FnOnce(&str) -> T,
    N: Fn(&Vec<T>) -> usize,
>(
    config: Config,
    content: &str,
    session_messages: S,
    role_messages: R,
    new_message: P,
    num_tokens: N,
    messages: Vec<T>,
)
    requires
        built(
            config,
            content,
            session_messages,
            role_messages,
            new_message,
            num_tokens,
            Ok(messages),
        ),
    ensures
        composed(config, content, session_messages, role_messages, new_message, messages),
        exists|tokens: usize| #[trigger]
            num_tokens.ensures((&messages,), tokens) && tokens < config.model_info.max_tokens,
{
    let (sent, tokens) = choose|sent: Vec<T>, tokens: usize|
        {
            &&& composed(config, content, session_messages, role_messages, new_message, sent)
            &&& #[trigger] num_tokens.ensures((&sent,), tokens)
            &&& Ok::<_, ConfigError>(messages) == admitted(config, sent, tokens)
        };
    assert(num_tokens.ensures((&messages,), tokens));
}

/// Taking over the settings of an old file a second time changes nothing more.
pub proof fn law_old_settings_are_taken_over_once(
    before: Config,
    fields: LegacyFields,
    openai: Seq<char>,
    once: Config,
    twice: Config,
)
    requires
        legacy_applied(before, fields, openai, once),
        legacy_applied(once, fields, openai, twice),
    ensures
        text_view(twice.model) == text_view(once.model),
        twice.clients@ == once.clients@,
        twice == (Config { model: twice.model, clients: twice.clients, ..once }),
{
    if !fields.has_clients {
        assert(clients_with(clients_with(before.clients@, fields), fields) =~= clients_with(
            before.clients@,
            fields,
        ));
    }
}

/// A configuration that is ready is at its default temperature, which is the one that was read,
/// wraps text in a mode that there is, uses a model that was on offer, has its session directory,
/// has the switch `highlight` at false (with which a theme is used) where `NO_COLOR` says so, and
/// at true only where it was read so; a light theme that was asked for and the last message are
/// kept.
pub proof fn law_ready_configuration<
    E,
    L: Fn(&Config) -> Vec<ModelInfo>,
    U: FnOnce(Session, &str) -> (Session, Result<(), String>),
    R: FnOnce() -> Result<Option<Vec<Role>>, E>,
    D: FnOnce() -> Result<(), E>,
    C: FnOnce(&str) -> Option<bool>,
>(
    before: Config,
    existing: Option<&str>,
    openai: Seq<char>,
    environment: Environment<'_>,
    list_models: L,
    set_session_model: U,
    read_roles: R,
    ensure_sessions_dir: D,
    light_theme_from_colorfgbg: C,
    ready: Config,
)
    requires
        initialised(
            before,
            existing,
            openai,
            environment,
            list_models,
            set_session_model,
            read_roles,
            ensure_sessions_dir,
            light_theme_from_colorfgbg,
            Ok(ready),
        ),
    ensures
        ready.default_temperature == before.default_temperature,
        ready.temperature == before.default_temperature,
        ready.wrap is Some ==> ready.wrap->0@ == "auto"@ || is_u16_text(ready.wrap->0@),
        ready.highlight ==> before.highlight,
        environment.no_color is Some && env_flag_of(environment.no_color->0@) == Some(true)
            ==> !ready.highlight,
        exists|asked: Config, models: Vec<ModelInfo>|
            {
                &&& #[trigger] list_models.ensures((&asked,), models)
                &&& asked.clients == ready.clients
                &&& models@.contains(ready.model_info)
            },
        exists|made: Result<(), E>| #[trigger] ensure_sessions_dir.ensures((), made) && made is Ok,
        ready.last_message == before.last_message,
        before.light_theme ==> ready.light_theme,
        ready.role == before.role,
        before.session is None ==> ready.session is None,
{
}

} // verus!
