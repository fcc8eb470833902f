//! What becomes of what was said, and how a session starts and ends.
use crate::client::ModelInfo;
use crate::config::Config;
use crate::error::ConfigError;
use crate::laws::selection::{asked_out_of, lemma_asked_out_of};
use crate::models::model_asked;
use crate::role::Role;
use crate::session::{EndStep, Session, StartStep};
use crate::sessions::{
    in_session, message_added, session_name_of, session_names, step_after_opening, MessageSink,
};
use crate::text::texts;
use vstd::prelude::*;

verus! {

/// A question and its answer become the last message, whatever else comes of them.
pub proof fn law_last_message_is_kept<
    A: FnOnce(Session, &str, &str) -> (Session, Result<(), String>),
>(
    config: &mut Config,
    input: &str,
    output: &str,
    add_message: A,
    result: Result<MessageSink, ConfigError>,
)
    requires
        call_ensures(Config::save_message::<A>, (config, input, output, add_message), result),
    ensures
        final(config).last_message is Some,
        (final(config).last_message->0).0@ == input@,
        (final(config).last_message->0).1@ == output@,
        *final(config) == (Config {
            last_message: final(config).last_message,
            session: final(config).session,
            ..*old(config)
        }),
{
}

/// In a dry run nothing is left to do, whether a session is under way or not, and the session, if
/// any, is not touched.
pub proof fn law_dry_run_writes_nothing<
    A: FnOnce(Session, &str, &str) -> (Session, Result<(), String>),
>(
    config: &mut Config,
    input: &str,
    output: &str,
    add_message: A,
    result: Result<MessageSink, ConfigError>,
)
    requires
        call_ensures(Config::save_message::<A>, (config, input, output, add_message), result),
        old(config).dry_run,
    ensures
        result == Ok::<_, ConfigError>(MessageSink::Nothing),
        final(config).session == old(config).session,
        *final(config) == (Config { last_message: final(config).last_message, ..*old(config) }),
{
}

/// An entry is appended to the message file exactly outside a dry run, outside a session, where
/// messages are saved and there is an answer; without an answer the file is only opened. Where
/// there is no session this is all that comes of a message, and nothing is refused.
pub proof fn law_messages_are_written_where_they_are_saved<
    A: FnOnce(Session, &str, &str) -> (Session, Result<(), String>),
>(
    config: &mut Config,
    input: &str,
    output: &str,
    add_message: A,
    result: Result<MessageSink, ConfigError>,
)
    requires
        call_ensures(Config::save_message::<A>, (config, input, output, add_message), result),
    ensures
        result == Ok::<_, ConfigError>(MessageSink::Append) <==> {
            &&& !old(config).dry_run
            &&& old(config).save
            &&& old(config).session is None
            &&& output@.len() > 0
        },
        result == Ok::<_, ConfigError>(MessageSink::Open) <==> {
            &&& !old(config).dry_run
            &&& old(config).save
            &&& old(config).session is None
            &&& output@.len() == 0
        },
        old(config).session is None ==> result is Ok && final(config).session is None,
        result is Err ==> !old(config).dry_run && old(config).session is Some,
{
}

/// Outside a dry run a session is handed the question and its answer, whether messages are saved or
/// not; the session that it makes of them goes on, and where it refuses the error says why.
pub proof fn law_session_keeps_the_message<
    A: FnOnce(Session, &str, &str) -> (Session, Result<(), String>),
>(
    config: &mut Config,
    input: &str,
    output: &str,
    add_message: A,
    result: Result<MessageSink, ConfigError>,
)
    requires
        call_ensures(Config::save_message::<A>, (config, input, output, add_message), result),
        !old(config).dry_run,
        old(config).session is Some,
    ensures
        exists|told: Session, outcome: Result<(), String>|
            {
                &&& #[trigger] add_message.ensures(
                    (old(config).session->0, input, output),
                    (told, outcome),
                )
                &&& final(config).session == Some(told)
                &&& outcome is Ok ==> result == Ok::<_, ConfigError>(MessageSink::Nothing)
                &&& outcome matches Err(text) ==> result == Err::<MessageSink, _>(
                    ConfigError::Session(text),
                )
            },
{
}

/// The entry for a message has the time and the role, if one is selected, in its title; then come
/// the question and the answer, each followed by a rule.
pub proof fn law_entry_holds_the_message(
    config: Config,
    input: &str,
    output: &str,
    timestamp: &str,
    entry: String,
)
    requires
        call_ensures(Config::message_entry, (&config, input, output, timestamp), entry),
    ensures
        config.role is None ==> entry@ == "# CHAT:["@ + timestamp@ + "]\n"@ + input@
            + "\n--------\n"@ + output@ + "\n--------\n\n"@,
        config.role matches Some(role) ==> entry@ == "# CHAT:["@ + timestamp@ + "] ("@ + role.name@
            + ")\n"@ + input@ + "\n--------\n"@ + output@ + "\n--------\n\n"@,
{
}

/// A session starts only where none is under way: under the name that was given, or as a temporary
/// one under the name that those have.
pub proof fn law_one_session_at_a_time(
    config: Config,
    session: Option<String>,
    temp_name: &str,
    result: Result<StartStep, ConfigError>,
)
    requires
        call_ensures(Config::start_session, (&config, &session, temp_name), result),
    ensures
        config.session is Some <==> result == Err::<StartStep, _>(ConfigError::AlreadyInSession),
        config.session is None ==> {
            &&& result is Ok
            &&& result->Ok_0 is Probe
            &&& result->Ok_0->Probe_temp <==> session is None
            &&& session matches Some(name) ==> result->Ok_0->Probe_name@ == name@
            &&& session is None ==> result->Ok_0->Probe_name@ == temp_name@
        },
{
}

/// `after` is `before` in a new session, which was made for the name, the full name of the model in
/// use and the selected role.
pub open spec fn newly_opened<N: FnOnce(&str, &str, Option<Role>) -> Session>(
    before: Config,
    name: Seq<char>,
    new_session: N,
    after: Config,
) -> bool {
    exists|called: &str, model: &str, session: Session|
        {
            &&& called@ == name
            &&& model@ == before.model_info.client@ + ":"@ + before.model_info.name@
            &&& #[trigger] new_session.ensures((called, model, before.role), session)
            &&& after == (Config { session: Some(session), ..before })
        }
}

/// Where a session starts, the user is asked about the last message exactly where there is one and
/// the session is empty.
pub open spec fn asked_where_empty(config: Config, step: StartStep) -> bool {
    &&& config.session is Some && config.session->0.is_empty && config.last_message is Some
        <==> step is Ask
    &&& step is Ask || step is Started
}

/// A session whose file is there is read, unless it is a temporary one, whose file is removed, and
/// nothing changes yet. Where there is no file a new session is opened.
pub proof fn law_session_files_decide<N: FnOnce(&str, &str, Option<Role>) -> Session>(
    config: &mut Config,
    name: String,
    temp: bool,
    exists_file: bool,
    new_session: N,
    step: StartStep,
)
    requires
        call_ensures(
            Config::session_probed::<N>,
            (config, name, temp, exists_file, new_session),
            step,
        ),
    ensures
        exists_file && temp ==> step is Remove && step->Remove_name@ == name@,
        exists_file && !temp ==> step is Load && step->Load_name@ == name@,
        exists_file ==> *final(config) == *old(config),
        !exists_file ==> {
            &&& newly_opened(*old(config), name@, new_session, *final(config))
            &&& asked_where_empty(*final(config), step)
        },
{
}

/// Once what a temporary session left is removed a new one is opened; where it cannot be removed,
/// that is the error, and nothing changes.
pub proof fn law_temporary_sessions_start_afresh<N: FnOnce(&str, &str, Option<Role>) -> Session>(
    config: &mut Config,
    name: String,
    removed: bool,
    new_session: N,
    result: Result<StartStep, ConfigError>,
)
    requires
        call_ensures(Config::session_removed::<N>, (config, name, removed, new_session), result),
    ensures
        removed ==> {
            &&& result is Ok
            &&& newly_opened(*old(config), name@, new_session, *final(config))
            &&& asked_where_empty(*final(config), result->Ok_0)
        },
        !removed ==> {
            &&& result == Err::<StartStep, _>(ConfigError::CleanSession)
            &&& *final(config) == *old(config)
        },
{
}

/// A session that was read is under way at its own temperature, and its model is asked for; where
/// that fails, so does the start.
pub proof fn law_read_session_comes_into_use<
    L: Fn(&Config) -> Vec<ModelInfo>,
    U: FnOnce(Session, &str) -> (Session, Result<(), String>),
>(
    config: &mut Config,
    session: Session,
    list_models: &L,
    set_session_model: U,
    result: Result<StartStep, ConfigError>,
)
    requires
        call_ensures(
            Config::session_loaded::<L, U>,
            (config, session, list_models, set_session_model),
            result,
        ),
    ensures
        final(config).temperature == session.temperature,
        final(config).session is Some,
        *final(config) == (Config {
            temperature: final(config).temperature,
            session: final(config).session,
            model_info: final(config).model_info,
            ..*old(config)
        }),
        result is Ok ==> asked_where_empty(*final(config), result->Ok_0),
        exists|within: Config, taken: Result<(), ConfigError>|
            {
                &&& within == (Config {
                    temperature: session.temperature,
                    session: Some(session),
                    ..*old(config)
                })
                &&& #[trigger] asked_out_of(
                    within,
                    session.model@,
                    *list_models,
                    set_session_model,
                    *final(config),
                    taken,
                )
                &&& taken is Ok == result is Ok
                &&& taken matches Err(error) ==> result == Err::<StartStep, _>(error)
            },
{
    let within = in_session(*old(config), session);
    let taken = choose|taken: Result<(), ConfigError>|
        {
            &&& #[trigger] model_asked(
                within,
                session.model@,
                *list_models,
                set_session_model,
                *final(config),
                taken,
            )
            &&& result == (match taken {
                Ok(_) => Ok(step_after_opening(*final(config))),
                Err(error) => Err(error),
            })
        };
    lemma_asked_out_of(
        within,
        session.model@,
        *list_models,
        set_session_model,
        *final(config),
        taken,
    );
}

/// The last message is handed to the session exactly where the user wants it, as the question and
/// the answer that it was; the session that it makes of them goes on.
pub proof fn law_last_message_is_taken_up<
    A: FnOnce(Session, &str, &str) -> (Session, Result<(), String>),
>(config: &mut Config, answer: bool, add_message: A, result: Result<(), ConfigError>)
    requires
        call_ensures(Config::session_answered::<A>, (config, answer, add_message), result),
    ensures
        !answer || old(config).session is None || old(config).last_message is None ==> {
            &&& result is Ok
            &&& *final(config) == *old(config)
        },
        answer && old(config).session is Some && old(config).last_message is Some ==> exists|
            input: &str,
            output: &str,
            told: Session,
            outcome: Result<(), String>,
        |
            {
                &&& input@ == (old(config).last_message->0).0@
                &&& output@ == (old(config).last_message->0).1@
                &&& #[trigger] add_message.ensures(
                    (old(config).session->0, input, output),
                    (told, outcome),
                )
                &&& *final(config) == (Config { session: Some(told), ..*old(config) })
                &&& outcome is Ok ==> result is Ok
                &&& outcome matches Err(text) ==> result == Err::<(), _>(
                    ConfigError::Session(text),
                )
            },
{
    if answer && old(config).session is Some && old(config).last_message is Some {
        let kept = old(config).last_message->0;
        let (input, output) = choose|input: &str, output: &str|
            {
                &&& input@ == kept.0@
                &&& output@ == kept.1@
                &&& #[trigger] message_added(
                    *old(config),
                    old(config).session->0,
                    input,
                    output,
                    add_message,
                    (),
                    *final(config),
                    result,
                )
            };
        assert(input@ == kept.0@);
    }
}

/// A session that ends takes the last message with it, and brings the default temperature back;
/// nothing else changes, and without a session nothing at all. The user is asked exactly about a
/// session that has changes.
pub proof fn law_session_ends(config: &mut Config, step: EndStep)
    requires
        call_ensures(Config::end_session, (config,), step),
    ensures
        old(config).session is None ==> step is Finished && *final(config) == *old(config),
        old(config).session matches Some(session) ==> {
            &&& final(config).session is None
            &&& final(config).last_message is None
            &&& final(config).temperature == old(config).default_temperature
            &&& *final(config) == (Config {
                session: None,
                last_message: None,
                temperature: final(config).temperature,
                ..*old(config)
            })
            &&& session.should_save ==> step == (EndStep::ConfirmSave { session })
            &&& !session.should_save ==> step is Finished
        },
{
}

/// A session is saved only where the user wants it: under its own name, and a temporary one under
/// the name that it is then given.
pub proof fn law_session_is_saved_under_its_name(
    session: Session,
    answer: bool,
    step: EndStep,
    name: String,
    named: EndStep,
)
    requires
        call_ensures(Config::save_answered, (session, answer), step),
        call_ensures(Config::name_given, (session, name), named),
    ensures
        !answer <==> step is Finished,
        answer && session.is_temp ==> step == (EndStep::AskName { session }),
        answer && !session.is_temp ==> {
            &&& step is Save
            &&& step->Save_session == session
            &&& step->Save_name@ == session.name@
        },
        named is Save,
        named->Save_session == session,
        named->Save_name@ == name@,
{
}

/// The sessions are listed in the order of their files: each file that ends in `.yaml` gives one,
/// and a further file never changes those before it.
pub proof fn law_sessions_are_listed_in_order(
    files: Vec<String>,
    names: Vec<String>,
    more_files: Vec<String>,
    more_names: Vec<String>,
)
    requires
        call_ensures(Config::list_sessions, (&files,), names),
        call_ensures(Config::list_sessions, (&more_files,), more_names),
    ensures
        files@.len() == 0 ==> names@.len() == 0,
        more_files@.len() > 0 && more_files@.drop_last() == files@ ==> {
            let last = more_files@.last()@;
            &&& forall|i: int|
                0 <= i < names@.len() ==> (#[trigger] more_names@[i])@ == names@[i]@
            &&& (forall|front: Seq<char>| last != #[trigger] (front + ".yaml"@))
                ==> more_names@.len() == names@.len()
            &&& forall|front: Seq<char>|
                last == #[trigger] (front + ".yaml"@) ==> {
                    &&& more_names@.len() == names@.len() + 1
                    &&& more_names@.last()@ == front
                }
        },
{
    assert(texts(names@).len() == names@.len());
    assert(texts(more_names@).len() == more_names@.len());
    if more_files@.len() > 0 && more_files@.drop_last() == files@ {
        let last = more_files@.last()@;
        let suffix = ".yaml"@;
        assert(texts(more_files@).drop_last() =~= texts(files@));
        assert(texts(more_files@).last() == last);
        assert(forall|i: int|
            0 <= i < more_names@.len() ==> texts(more_names@)[i] == (#[trigger] more_names@[i])@);
        assert(forall|i: int|
            0 <= i < names@.len() ==> texts(names@)[i] == (#[trigger] names@[i])@);
        assert forall|front: Seq<char>| last == #[trigger] (front + suffix) implies session_name_of(
            last,
        ) == Some(front) by {
            assert(last.subrange(last.len() - suffix.len(), last.len() as int) =~= suffix);
            assert(last.take(last.len() - suffix.len()) =~= front);
        }
        if let Some(name) = session_name_of(last) {
            assert(last =~= name + suffix);
        }
        assert(session_names(texts(more_files@)) == match session_name_of(last) {
            Some(name) => session_names(texts(files@)).push(name),
            None => session_names(texts(files@)),
        });
    }
}

} // verus!
