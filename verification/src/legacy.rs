//! Configuration files from before there was a list of clients: one OpenAI client, with its
//! settings at the top level.
use crate::client::{ClientConfig, ExtraConfig, OpenAIConfig};
use crate::config::Config;
use crate::error::ConfigError;
use crate::text::{same_text, starts_with};
use serde_json::Value;
use vstd::prelude::*;

verus! {

/// A value of a YAML document, as far as it is read.
#[derive(Debug)]
pub enum Entry {
    Null,
    Flag(bool),
    /// A number, as an integer where it is one of 64 bits with a sign.
    Number(Option<i64>),
    Text(String),
    List,
    Table,
}

/// What an `Entry` holds.
pub enum EntryView {
    Null,
    Flag(bool),
    Number(Option<i64>),
    Text(Seq<char>),
    List,
    Table,
}

impl View for Entry {
    type V = EntryView;

    open spec fn view(&self) -> EntryView {
        match *self {
            Entry::Null => EntryView::Null,
            Entry::Flag(flag) => EntryView::Flag(flag),
            Entry::Number(number) => EntryView::Number(number),
            Entry::Text(text) => EntryView::Text(text@),
            Entry::List => EntryView::List,
            Entry::Table => EntryView::Table,
        }
    }
}

/// The keys of a table, each with what its entry holds.
pub open spec fn entries_view(entries: Seq<(String, Entry)>) -> Seq<(Seq<char>, EntryView)> {
    entries.map_values(|entry: (String, Entry)| (entry.0@, entry.1@))
}

/// The top level of the YAML document in a text: the text of an error where it is no such
/// document, and no entries where the document is no table.
pub uninterp spec fn yaml_document(content: Seq<char>) -> Result<
    Option<Seq<(Seq<char>, EntryView)>>,
    Seq<char>,
>;

/// Calls `serde_yaml::from_str` for a `serde_json::Value`, and hands out the variant of the value
/// and of each entry of an object, with their texts, flags and integers, or the error as a text.
/// Claimed is only that the text alone decides on all of it, which `yaml_document` names.
#[verifier::external_body]
fn read_yaml(content: &str) -> (read: Result<Option<Vec<(String, Entry)>>, String>)
    ensures
        match read {
            Ok(Some(entries)) => yaml_document(content@) == Ok::<_, Seq<char>>(
                Some(entries_view(entries@)),
            ),
            Ok(None) => yaml_document(content@) == Ok::<_, Seq<char>>(
                None::<Seq<(Seq<char>, EntryView)>>,
            ),
            Err(text) => yaml_document(content@) == Err::<Option<Seq<(Seq<char>, EntryView)>>, _>(
                text@,
            ),
        },
{
    Ok(match serde_yaml::from_str::<Value>(content).map_err(|error| error.to_string())? {
        Value::Null => None,
        Value::Bool(_) => None,
        Value::Number(_) => None,
        Value::String(_) => None,
        Value::Array(_) => None,
        Value::Object(entries) => Some(entries.into_iter().map(|(key, value)| (key, match value {
            Value::Null => Entry::Null,
            Value::Bool(flag) => Entry::Flag(flag),
            Value::Number(number) => Entry::Number(number.as_i64()),
            Value::String(text) => Entry::Text(text),
            Value::Array(_) => Entry::List,
            Value::Object(_) => Entry::Table,
        })).collect()),
    })
}

/// The settings of an old file that are taken over.
#[derive(Debug)]
pub struct LegacyFields {
    /// Whether the file has a list of clients, and so is no old one.
    pub has_clients: bool,
    pub model: Option<String>,
    pub api_key: Option<String>,
    pub organization_id: Option<String>,
    pub proxy: Option<String>,
    pub connect_timeout: Option<i64>,
}

/// The entries at the top level of a document: none where it is no table.
pub open spec fn entries_in(document: Option<Seq<(Seq<char>, EntryView)>>) -> Seq<
    (Seq<char>, EntryView),
> {
    match document {
        Some(entries) => entries,
        None => Seq::empty(),
    }
}

/// The entry of a key.
pub open spec fn entry_of(
    entries: Seq<(Seq<char>, EntryView)>,
    key: Seq<char>,
) -> Option<EntryView>
    decreases entries.len(),
{
    if entries.len() == 0 {
        None
    } else if entries[0].0 == key {
        Some(entries[0].1)
    } else {
        entry_of(entries.skip(1), key)
    }
}

/// The text that stands under a key.
pub open spec fn text_of(entries: Seq<(Seq<char>, EntryView)>, key: Seq<char>) -> Option<
    Seq<char>,
> {
    match entry_of(entries, key) {
        Some(EntryView::Text(text)) => Some(text),
        _ => None,
    }
}

/// The integer that stands under a key.
pub open spec fn integer_of(entries: Seq<(Seq<char>, EntryView)>, key: Seq<char>) -> Option<i64> {
    match entry_of(entries, key) {
        Some(EntryView::Number(number)) => number,
        _ => None,
    }
}

pub open spec fn text_view(text: Option<String>) -> Option<Seq<char>> {
    match text {
        Some(text) => Some(text@),
        None => None,
    }
}

/// `fields` are the settings in a table with these entries.
pub open spec fn fields_of(
    entries: Seq<(Seq<char>, EntryView)>,
    fields: LegacyFields,
) -> bool {
    &&& fields.has_clients == (entry_of(entries, "clients"@) is Some)
    &&& text_view(fields.model) == text_of(entries, "model"@)
    &&& text_view(fields.api_key) == text_of(entries, "api_key"@)
    &&& text_view(fields.organization_id) == text_of(entries, "organization_id"@)
    &&& text_view(fields.proxy) == text_of(entries, "proxy"@)
    &&& fields.connect_timeout == integer_of(entries, "connect_timeout"@)
}

/// The first of two settings, else the second.
pub open spec fn preferred(first: Option<String>, second: Option<String>) -> Option<String> {
    if first is Some {
        first
    } else {
        second
    }
}

/// An integer of 64 bits without a sign that has the bits of one with a sign.
pub open spec fn unsigned(number: i64) -> u64 {
    if number >= 0 {
        number as u64
    } else {
        (number + 0x1_0000_0000_0000_0000) as u64
    }
}

/// `client` with the settings of an old file in it.
pub open spec fn client_with(client: OpenAIConfig, fields: LegacyFields) -> OpenAIConfig {
    OpenAIConfig {
        api_key: preferred(fields.api_key, client.api_key),
        organization_id: preferred(fields.organization_id, client.organization_id),
        extra: Some(
            ExtraConfig {
                proxy: fields.proxy,
                connect_timeout: match fields.connect_timeout {
                    Some(timeout) => Some(unsigned(timeout)),
                    None => None,
                },
            },
        ),
    }
}

/// The clients with the settings of an old file in the first, where it is an OpenAI client.
pub open spec fn clients_with(clients: Seq<ClientConfig>, fields: LegacyFields) -> Seq<
    ClientConfig,
> {
    if clients.len() > 0 {
        match clients[0] {
            ClientConfig::OpenAI(client) => clients.update(
                0,
                ClientConfig::OpenAI(client_with(client, fields)),
            ),
            ClientConfig::Other(_) => clients,
        }
    } else {
        clients
    }
}

/// Taking over the settings of an old file takes `before` to `after`. A model of the `gpt`
/// family becomes one of the client `openai`.
pub open spec fn legacy_applied(
    before: Config,
    fields: LegacyFields,
    openai: Seq<char>,
    after: Config,
) -> bool {
    if fields.has_clients {
        after == before
    } else {
        &&& match fields.model {
            Some(model) => if "gpt"@.is_prefix_of(model@) {
                text_view(after.model) == Some(openai + ":"@ + model@)
            } else {
                after.model == before.model
            },
            None => after.model == before.model,
        }
        &&& after.clients@ == clients_with(before.clients@, fields)
        &&& after == (Config { model: after.model, clients: after.clients, ..before })
    }
}

/// Reading `content` as an old file takes `before` to `after` and gives `result`.
pub open spec fn legacy_read(
    before: Config,
    content: Seq<char>,
    openai: Seq<char>,
    after: Config,
    result: Result<(), ConfigError>,
) -> bool {
    match yaml_document(content) {
        Ok(document) => exists|fields: LegacyFields|
            {
                &&& #[trigger] fields_of(entries_in(document), fields)
                &&& legacy_applied(before, fields, openai, after)
                &&& result is Ok
            },
        Err(text) => {
            &&& result matches Err(ConfigError::InvalidConfig(told)) && told@ == text
            &&& after == before
        },
    }
}

fn find_entry<'a>(entries: &'a Vec<(String, Entry)>, key: &str) -> (found: Option<&'a Entry>)
    ensures
        match found {
            Some(entry) => entry_of(entries_view(entries@), key@) == Some(entry@),
            None => entry_of(entries_view(entries@), key@) is None,
        },
{
    let mut i: usize = 0;
    let ghost all = entries_view(entries@);
    assert(all.skip(0) =~= all);
    while i < entries.len()
        invariant
            i <= entries.len(),
            all == entries_view(entries@),
            entry_of(all, key@) == entry_of(all.skip(i as int), key@),
        decreases entries.len() - i,
    {
        assert(all.skip(i as int)[0] == (entries[i as int].0@, entries[i as int].1@));
        if same_text(entries[i].0.as_str(), key) {
            return Some(&entries[i].1);
        }
        assert(all.skip(i as int).skip(1) =~= all.skip(i + 1));
        i += 1;
    }
    None
}

fn find_text(entries: &Vec<(String, Entry)>, key: &str) -> (found: Option<String>)
    ensures
        text_view(found) == text_of(entries_view(entries@), key@),
{
    match find_entry(entries, key) {
        Some(Entry::Text(text)) => Some(text.clone()),
        _ => None,
    }
}

fn find_integer(entries: &Vec<(String, Entry)>, key: &str) -> (found: Option<i64>)
    ensures
        found == integer_of(entries_view(entries@), key@),
{
    match find_entry(entries, key) {
        Some(Entry::Number(number)) => *number,
        _ => None,
    }
}

/// The settings in a table that are taken over.
pub fn legacy_fields(entries: &Vec<(String, Entry)>) -> (fields: LegacyFields)
    ensures
        fields_of(entries_view(entries@), fields),
{
    LegacyFields {
        has_clients: find_entry(entries, "clients").is_some(),
        model: find_text(entries, "model"),
        api_key: find_text(entries, "api_key"),
        organization_id: find_text(entries, "organization_id"),
        proxy: find_text(entries, "proxy"),
        connect_timeout: find_integer(entries, "connect_timeout"),
    }
}

fn to_unsigned(number: i64) -> (bits: u64)
    ensures
        bits == unsigned(number),
{
    if number >= 0 {
        number as u64
    } else {
        (number as i128 + 0x1_0000_0000_0000_0000) as u64
    }
}

impl Config {
    /// Takes over the settings of an old file, where it is one. `openai` is the name of the
    /// OpenAI client.
    pub fn apply_legacy(&mut self, fields: LegacyFields, openai: &str)
        ensures
            legacy_applied(*old(self), fields, openai@, *final(self)),
    {
        if fields.has_clients {
            return;
        }
        if let Some(model) = &fields.model {
            if starts_with(model.as_str(), "gpt") {
                self.model = Some(openai.to_owned().concat(":").concat(model.as_str()));
            }
        }
        if self.clients.len() > 0 {
            let first = self.clients.remove(0);
            let first = match first {
                ClientConfig::OpenAI(client) => ClientConfig::OpenAI(
                    OpenAIConfig {
                        api_key: match fields.api_key {
                            Some(api_key) => Some(api_key),
                            None => client.api_key,
                        },
                        organization_id: match fields.organization_id {
                            Some(organization_id) => Some(organization_id),
                            None => client.organization_id,
                        },
                        extra: Some(
                            ExtraConfig {
                                proxy: fields.proxy,
                                connect_timeout: match fields.connect_timeout {
                                    Some(timeout) => Some(to_unsigned(timeout)),
                                    None => None,
                                },
                            },
                        ),
                    },
                ),
                other => other,
            };
            self.clients.insert(0, first);
            assert(self.clients@ =~= clients_with(old(self).clients@, fields));
        }
    }

    /// Takes over what `content`, the text of the configuration file, holds of old settings.
    pub fn compat_old_config(&mut self, content: &str, openai: &str) -> (result: Result<
        (),
        ConfigError,
    >)
        ensures
            legacy_read(*old(self), content@, openai@, *final(self), result),
    {
        match read_yaml(content) {
            Ok(document) => {
                let entries = match document {
                    Some(entries) => entries,
                    None => Vec::new(),
                };
                assert(entries_in(yaml_document(content@)->Ok_0) =~= entries_view(entries@));
                let fields = legacy_fields(&entries);
                assert(fields_of(entries_in(yaml_document(content@)->Ok_0), fields));
                self.apply_legacy(fields, openai);
                Ok(())
            },
            Err(text) => Err(ConfigError::InvalidConfig(text)),
        }
    }
}

} // verus!
