//! Choosing a model, and what the prompt offers to complete.
use crate::client::{choose_model, chosen, none_chosen, ModelInfo};
use crate::config::Config;
use crate::error::ConfigError;
use crate::role::Role;
use crate::session::Session;
use crate::text::texts;
use vstd::prelude::*;

verus! {

/// Taking `model` into use: a session that is under way is told first, and may refuse.
pub open spec fn model_taken<U: FnOnce(Session, &str) -> (Session, Result<(), String>)>(
    before: Config,
    model: ModelInfo,
    set_session_model: U,
    after: Config,
    result: Result<(), ConfigError>,
) -> bool {
    match before.session {
        None => result is Ok && after == (Config { model_info: model, ..before }),
        Some(session) => exists|text: &str, updated: Session, outcome: Result<(), String>|
            {
                &&& text@ == model.text()
                &&& #[trigger] set_session_model.ensures((session, text), (updated, outcome))
                &&& match outcome {
                    Ok(_) => {
                        &&& result is Ok
                        &&& after == (Config {
                            model_info: model,
                            session: Some(updated),
                            ..before
                        })
                    },
                    Err(text) => {
                        &&& result == Err::<(), _>(ConfigError::Session(text))
                        &&& after == (Config { session: Some(updated), ..before })
                    },
                }
            },
    }
}

/// Asking for the model `value` where `models` are on offer.
pub open spec fn model_set<U: FnOnce(Session, &str) -> (Session, Result<(), String>)>(
    before: Config,
    models: Seq<ModelInfo>,
    value: Seq<char>,
    set_session_model: U,
    after: Config,
    result: Result<(), ConfigError>,
) -> bool {
    ||| {
        &&& none_chosen(models, value)
        &&& result matches Err(ConfigError::UnknownModel(unknown)) && unknown@ == value
        &&& after == before
    }
    ||| exists|at: int|
        {
            &&& #[trigger] chosen(models, value, at)
            &&& model_taken(before, models[at], set_session_model, after, result)
        }
}

/// Asking for the model `value` where `list_models` tells what is on offer.
pub open spec fn model_asked<
    L: Fn(&Config) -> Vec<ModelInfo>,
    U: FnOnce(Session, &str) -> (Session, Result<(), String>),
>(
    before: Config,
    value: Seq<char>,
    list_models: L,
    set_session_model: U,
    after: Config,
    result: Result<(), ConfigError>,
) -> bool {
    exists|models: Vec<ModelInfo>|
        {
            &&& #[trigger] list_models.ensures((&before,), models)
            &&& model_set(before, models@, value, set_session_model, after, result)
        }
}

/// Asking for the model to start with: the one of the configuration, else the first on offer.
pub open spec fn first_model_asked<
    L: Fn(&Config) -> Vec<ModelInfo>,
    U: FnOnce(Session, &str) -> (Session, Result<(), String>),
>(
    before: Config,
    list_models: L,
    set_session_model: U,
    after: Config,
    result: Result<(), ConfigError>,
) -> bool {
    match before.model {
        Some(value) => model_asked(
            before,
            value@,
            list_models,
            set_session_model,
            after,
            result,
        ),
        None => exists|models: Vec<ModelInfo>|
            {
                &&& #[trigger] list_models.ensures((&before,), models)
                &&& if models@.len() == 0 {
                    result == Err::<(), _>(ConfigError::NoModel) && after == before
                } else {
                    model_asked(
                        before,
                        models@[0].text(),
                        list_models,
                        set_session_model,
                        after,
                        result,
                    )
                }
            },
    }
}

pub open spec fn role_completions(roles: Seq<Role>) -> Seq<Seq<char>> {
    roles.map_values(|role: Role| ".role "@ + role.name@)
}

/// The settings that are offered.
pub open spec fn set_completions() -> Seq<Seq<char>> {
    seq![
        ".set temperature"@,
        ".set save true"@,
        ".set save false"@,
        ".set highlight true"@,
        ".set highlight false"@,
        ".set dry_run true"@,
        ".set dry_run false"@,
    ]
}

pub open spec fn model_completions(models: Seq<ModelInfo>) -> Seq<Seq<char>> {
    models.map_values(|model: ModelInfo| ".model "@ + model.text())
}

pub open spec fn session_completions(sessions: Seq<String>) -> Seq<Seq<char>> {
    sessions.map_values(|session: String| ".session "@ + session@)
}

fn push_set_completions(completion: &mut Vec<String>)
    ensures
        texts(final(completion)@) == texts(old(completion)@) + set_completions(),
{
    completion.push(".set temperature".to_owned());
    completion.push(".set save true".to_owned());
    completion.push(".set save false".to_owned());
    completion.push(".set highlight true".to_owned());
    completion.push(".set highlight false".to_owned());
    completion.push(".set dry_run true".to_owned());
    completion.push(".set dry_run false".to_owned());
    assert(texts(completion@) =~= texts(old(completion)@) + set_completions());
}

fn push_model_completions(completion: &mut Vec<String>, models: &Vec<ModelInfo>)
    ensures
        texts(final(completion)@) == texts(old(completion)@) + model_completions(models@),
{
    let mut i: usize = 0;
    assert(texts(completion@) =~= texts(old(completion)@) + model_completions(models@.take(0)));
    while i < models.len()
        invariant
            i <= models.len(),
            texts(completion@) == texts(old(completion)@) + model_completions(
                models@.take(i as int),
            ),
        decreases models.len() - i,
    {
        let ghost before = texts(completion@);
        completion.push(".model ".to_owned().concat(models[i].stringify().as_str()));
        assert(texts(completion@) =~= before.push(".model "@ + models[i as int].text()));
        assert(model_completions(models@.take(i + 1)) =~= model_completions(
            models@.take(i as int),
        ).push(".model "@ + models[i as int].text()));
        assert(texts(completion@) =~= texts(old(completion)@) + model_completions(
            models@.take(i + 1),
        ));
        i += 1;
    }
    assert(models@.take(i as int) =~= models@);
}

impl Config {
    /// Takes the first model that answers to `value` into use, out of those that `list_models`
    /// offers. A session that is under way is told first, by `set_session_model`, and may refuse.
    pub fn set_model<
        L: Fn(&Config) -> Vec<ModelInfo>,
        U: FnOnce(Session, &str) -> (Session, Result<(), String>),
    >(&mut self, value: &str, list_models: &L, set_session_model: U) -> (result: Result<
        (),
        ConfigError,
    >)
        requires
            forall|config: &Config| (*list_models).requires((config,)),
            forall|session: Session, text: &str| set_session_model.requires((session, text)),
        ensures
            model_asked(*old(self), value@, *list_models, set_session_model, *final(self), result),
    {
        let models = (*list_models)(&*self);
        assert((*list_models).ensures((&*old(self),), models));
        match choose_model(&models, value) {
            None => Err(ConfigError::UnknownModel(value.to_owned())),
            Some(at) => {
                assert(chosen(models@, value@, at as int));
                let model_info = models[at].clone();
                if let Some(session) = self.session.take() {
                    let name = model_info.stringify();
                    let text = name.as_str();
                    let (updated, outcome) = set_session_model(session, text);
                    assert(set_session_model.ensures((session, text), (updated, outcome)));
                    self.session = Some(updated);
                    if let Err(text) = outcome {
                        return Err(ConfigError::Session(text));
                    }
                }
                self.model_info = model_info;
                Ok(())
            },
        }
    }

    /// Takes the model of the configuration into use, or the first on offer where it names none.
    pub fn set_model_info<
        L: Fn(&Config) -> Vec<ModelInfo>,
        U: FnOnce(Session, &str) -> (Session, Result<(), String>),
    >(&mut self, list_models: &L, set_session_model: U) -> (result: Result<(), ConfigError>)
        requires
            forall|config: &Config| (*list_models).requires((config,)),
            forall|session: Session, text: &str| set_session_model.requires((session, text)),
        ensures
            first_model_asked(*old(self), *list_models, set_session_model, *final(self), result),
    {
        let model = match &self.model {
            Some(model) => model.clone(),
            None => {
                let models = (*list_models)(&*self);
                assert((*list_models).ensures((&*old(self),), models));
                if models.len() == 0 {
                    return Err(ConfigError::NoModel);
                }
                models[0].stringify()
            },
        };
        self.set_model(model.as_str(), list_models, set_session_model)
    }

    /// The commands that the prompt offers to complete: the roles, the settings, the models on
    /// offer, and `sessions`.
    pub fn repl_completions<L: Fn(&Config) -> Vec<ModelInfo>>(
        &self,
        list_models: &L,
        sessions: &Vec<String>,
    ) -> (completion: Vec<String>)
        requires
            forall|config: &Config| (*list_models).requires((config,)),
        ensures
            exists|first: Vec<ModelInfo>, second: Vec<ModelInfo>|
                {
                    &&& #[trigger] (*list_models).ensures((self,), first)
                    &&& #[trigger] (*list_models).ensures((self,), second)
                    &&& texts(completion@) == role_completions(self.roles@) + set_completions()
                        + model_completions(first@) + model_completions(second@)
                        + session_completions(sessions@)
                },
    {
        let mut completion: Vec<String> = Vec::new();
        let mut i: usize = 0;
        assert(texts(completion@) =~= role_completions(self.roles@.take(0)));
        while i < self.roles.len()
            invariant
                i <= self.roles.len(),
                texts(completion@) == role_completions(self.roles@.take(i as int)),
            decreases self.roles.len() - i,
        {
            let ghost before = texts(completion@);
            completion.push(".role ".to_owned().concat(self.roles[i].name.as_str()));
            assert(texts(completion@) =~= before.push(".role "@ + self.roles[i as int].name@));
            assert(texts(completion@) =~= role_completions(self.roles@.take(i + 1)));
            i += 1;
        }
        assert(self.roles@.take(i as int) =~= self.roles@);

        push_set_completions(&mut completion);
        let first = (*list_models)(self);
        push_model_completions(&mut completion, &first);
        let second = (*list_models)(self);
        push_model_completions(&mut completion, &second);

        let ghost front = texts(completion@);
        let mut i: usize = 0;
        assert(front =~= front + session_completions(sessions@.take(0)));
        while i < sessions.len()
            invariant
                i <= sessions.len(),
                texts(completion@) == front + session_completions(sessions@.take(i as int)),
            decreases sessions.len() - i,
        {
            let ghost before = texts(completion@);
            completion.push(".session ".to_owned().concat(sessions[i].as_str()));
            assert(texts(completion@) =~= before.push(".session "@ + sessions[i as int]@));
            assert(texts(completion@) =~= front + session_completions(sessions@.take(i + 1)));
            i += 1;
        }
        assert(sessions@.take(i as int) =~= sessions@);
        assert((*list_models).ensures((self,), first) && (*list_models).ensures((self,), second));
        completion
    }
}

} // verus!
