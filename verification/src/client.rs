//! The platforms that a model is reached through, and the models on offer.
use crate::text::{contains_char, same_text};
use vstd::prelude::*;

verus! {

#[derive(Clone, Debug, PartialEq, Eq)]
pub struct ExtraConfig {
    pub proxy: Option<String>,
    pub connect_timeout: Option<u64>,
}

#[derive(Clone, Debug, PartialEq, Eq)]
pub struct OpenAIConfig {
    pub api_key: Option<String>,
    pub organization_id: Option<String>,
    pub extra: Option<ExtraConfig>,
}

#[derive(Clone, Debug, PartialEq, Eq)]
pub enum ClientConfig {
    OpenAI(OpenAIConfig),
    /// Another platform, by the text of its settings.
    Other(String),
}

/// A model: the client that it is reached through, its own name, and how many tokens it takes.
#[derive(Debug, PartialEq, Eq)]
pub struct ModelInfo {
    pub client: String,
    pub name: String,
    pub max_tokens: usize,
}

impl Clone for ModelInfo {
    fn clone(&self) -> (copy: ModelInfo)
        ensures
            copy == *self,
    {
        ModelInfo {
            client: self.client.clone(),
            name: self.name.clone(),
            max_tokens: self.max_tokens,
        }
    }
}

impl ModelInfo {
    /// The name under which the model is asked for: its client and its own name.
    pub open spec fn text(&self) -> Seq<char> {
        self.client@ + ":"@ + self.name@
    }

    /// A value with a colon asks for one model by its full name, one without for a model of the
    /// client of that name.
    pub open spec fn answers_to(&self, value: Seq<char>) -> bool {
        if value.contains(':') {
            self.text() == value
        } else {
            self.client@ == value
        }
    }

    pub fn stringify(&self) -> (text: String)
        ensures
            text@ == self.text(),
    {
        self.client.clone().concat(":").concat(self.name.as_str())
    }
}

/// The model at `at` is the first that answers to `value`.
pub open spec fn chosen(models: Seq<ModelInfo>, value: Seq<char>, at: int) -> bool {
    &&& 0 <= at < models.len()
    &&& models[at].answers_to(value)
    &&& forall|i: int| 0 <= i < at ==> !(#[trigger] models[i]).answers_to(value)
}

/// No model answers to `value`.
pub open spec fn none_chosen(models: Seq<ModelInfo>, value: Seq<char>) -> bool {
    forall|i: int| 0 <= i < models.len() ==> !(#[trigger] models[i]).answers_to(value)
}

/// The index of the first model that answers to `value`.
pub fn choose_model(models: &Vec<ModelInfo>, value: &str) -> (found: Option<usize>)
    ensures
        match found {
            Some(at) => chosen(models@, value@, at as int),
            None => none_chosen(models@, value@),
        },
{
    let full = contains_char(value, ':');
    let mut i: usize = 0;
    while i < models.len()
        invariant
            full == value@.contains(':'),
            i <= models.len(),
            forall|j: int| 0 <= j < i ==> !(#[trigger] models[j]).answers_to(value@),
        decreases models.len() - i,
    {
        let answers = if full {
            same_text(models[i].stringify().as_str(), value)
        } else {
            same_text(models[i].client.as_str(), value)
        };
        if answers {
            return Some(i);
        }
        i += 1;
    }
    None
}

} // verus!
