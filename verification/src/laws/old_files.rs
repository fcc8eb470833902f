//! What is taken over of configuration files from before there was a list of clients.
use crate::config::Config;
use crate::error::ConfigError;
use crate::legacy::{
    entries_in, entries_view, entry_of, fields_of, legacy_applied, legacy_fields, legacy_read,
    yaml_document, Entry, EntryView, LegacyFields,
};
use vstd::prelude::*;

verus! {

/// The entry at `at` is the first under `key`.
pub open spec fn first_under(
    entries: Seq<(Seq<char>, EntryView)>,
    key: Seq<char>,
    at: int,
) -> bool {
    &&& 0 <= at < entries.len()
    &&& entries[at].0 == key
    &&& forall|i: int| 0 <= i < at ==> (#[trigger] entries[i]).0 != key
}

/// There is an entry under `key`.
pub open spec fn has_entry(entries: Seq<(Seq<char>, EntryView)>, key: Seq<char>) -> bool {
    exists|at: int| #[trigger] first_under(entries, key, at)
}

/// `field` is the text of the first entry under `key`, and nothing where that is no text.
pub open spec fn is_text_under(
    entries: Seq<(Seq<char>, EntryView)>,
    key: Seq<char>,
    field: Option<String>,
) -> bool {
    &&& field matches Some(text) ==> exists|at: int| #[trigger]
        first_under(entries, key, at) && entries[at].1 == EntryView::Text(text@)
    &&& field is None ==> forall|at: int| #[trigger]
        first_under(entries, key, at) ==> !(entries[at].1 is Text)
}

/// `field` is the integer of the first entry under `key`, and nothing where that is no integer.
pub open spec fn is_integer_under(
    entries: Seq<(Seq<char>, EntryView)>,
    key: Seq<char>,
    field: Option<i64>,
) -> bool {
    &&& field matches Some(number) ==> exists|at: int| #[trigger]
        first_under(entries, key, at) && entries[at].1 == EntryView::Number(Some(number))
    &&& field is None ==> forall|at: int| #[trigger]
        first_under(entries, key, at) ==> !(entries[at].1 is Number && entries[at].1->Number_0
            is Some)
}

/// `fields` are the settings that stand under their names in a table.
pub open spec fn stand_in(entries: Seq<(Seq<char>, EntryView)>, fields: LegacyFields) -> bool {
    &&& fields.has_clients <==> has_entry(entries, "clients"@)
    &&& is_text_under(entries, "model"@, fields.model)
    &&& is_text_under(entries, "api_key"@, fields.api_key)
    &&& is_text_under(entries, "organization_id"@, fields.organization_id)
    &&& is_text_under(entries, "proxy"@, fields.proxy)
    &&& is_integer_under(entries, "connect_timeout"@, fields.connect_timeout)
}

proof fn lemma_entry_of(entries: Seq<(Seq<char>, EntryView)>, key: Seq<char>)
    ensures
        entry_of(entries, key) is Some <==> has_entry(entries, key),
        forall|at: int| #[trigger]
            first_under(entries, key, at) ==> entry_of(entries, key) == Some(entries[at].1),
    decreases entries.len(),
{
    if entries.len() > 0 {
        let rest = entries.skip(1);
        lemma_entry_of(rest, key);
        assert(forall|i: int| 0 <= i < rest.len() ==> rest[i] == #[trigger] entries[i + 1]);
        if entries[0].0 == key {
            assert(first_under(entries, key, 0));
            assert forall|at: int| #[trigger] first_under(entries, key, at) implies entry_of(
                entries,
                key,
            ) == Some(entries[at].1) by {
                assert(at == 0);
            }
        } else {
            assert forall|at: int| #[trigger] first_under(entries, key, at) implies first_under(
                rest,
                key,
                at - 1,
            ) && entry_of(entries, key) == Some(entries[at].1) by {
                assert(at > 0);
                assert(rest[at - 1] == entries[at]);
                assert forall|i: int| 0 <= i < at - 1 implies (#[trigger] rest[i]).0 != key by {
                    assert(rest[i] == entries[i + 1]);
                }
                assert(first_under(rest, key, at - 1));
            }
            if has_entry(rest, key) {
                let at = choose|at: int| #[trigger] first_under(rest, key, at);
                assert forall|i: int| 0 <= i < at + 1 implies (#[trigger] entries[i]).0 != key by {
                    if i > 0 {
                        assert(rest[i - 1] == entries[i]);
                    }
                }
                assert(first_under(entries, key, at + 1));
            }
            if has_entry(entries, key) {
                let at = choose|at: int| #[trigger] first_under(entries, key, at);
                assert(first_under(rest, key, at - 1));
            }
        }
    }
}

proof fn lemma_stand_in(entries: Seq<(Seq<char>, EntryView)>, fields: LegacyFields)
    requires
        fields_of(entries, fields),
    ensures
        stand_in(entries, fields),
{
    lemma_entry_of(entries, "clients"@);
    lemma_entry_of(entries, "model"@);
    lemma_entry_of(entries, "api_key"@);
    lemma_entry_of(entries, "organization_id"@);
    lemma_entry_of(entries, "proxy"@);
    lemma_entry_of(entries, "connect_timeout"@);
}

/// A table holds its keys and what stands under each, in their order.
pub proof fn law_entries_are_what_was_read(entries: Seq<(String, Entry)>, i: int)
    requires
        0 <= i < entries.len(),
    ensures
        entries_view(entries).len() == entries.len(),
        entries_view(entries)[i].0 == entries[i].0@,
        entries[i].1 matches Entry::Text(text) ==> entries_view(entries)[i].1 == EntryView::Text(
            text@,
        ),
        entries[i].1 matches Entry::Number(number) ==> entries_view(entries)[i].1
            == EntryView::Number(number),
        entries[i].1 matches Entry::Flag(flag) ==> entries_view(entries)[i].1 == EntryView::Flag(
            flag,
        ),
        entries[i].1 is Null <==> entries_view(entries)[i].1 is Null,
        entries[i].1 is List <==> entries_view(entries)[i].1 is List,
        entries[i].1 is Table <==> entries_view(entries)[i].1 is Table,
{
}

/// The settings of an old file are read from under their own names.
pub proof fn law_old_settings_are_read(entries: Vec<(String, Entry)>, fields: LegacyFields)
    requires
        call_ensures(legacy_fields, (&entries,), fields),
    ensures
        stand_in(entries_view(entries@), fields),
{
    lemma_stand_in(entries_view(entries@), fields);
}

/// What comes of the settings of an old file. With a list of clients in it nothing does. Else a
/// model whose name begins with `gpt` becomes one of the OpenAI client, and any other leaves the
/// model; a key and an organization replace those of the first client, where that is an OpenAI
/// client, and a missing one leaves them; its proxy and its timeout are those of the file, or none.
/// Nothing else changes.
pub open spec fn taken_over(
    before: Config,
    fields: LegacyFields,
    openai: Seq<char>,
    after: Config,
) -> bool {
    &&& fields.has_clients ==> after == before
    &&& !fields.has_clients ==> {
        let is_gpt = fields.model is Some && fields.model->0@.len() >= 3 && fields.model->0@.take(3)
            == seq!['g', 'p', 't'];
        &&& is_gpt ==> after.model is Some && after.model->0@ == openai + ":"@ + fields.model->0@
        &&& !is_gpt ==> after.model == before.model
        &&& after.clients@.len() == before.clients@.len()
        &&& forall|i: int| 0 < i < before.clients@.len() ==> after.clients@[i]
            == #[trigger] before.clients@[i]
        &&& before.clients@.len() > 0 && before.clients@[0] is Other ==> after.clients@[0]
            == before.clients@[0]
        &&& before.clients@.len() > 0 && before.clients@[0] is OpenAI ==> {
            let client = before.clients@[0]->OpenAI_0;
            let updated = after.clients@[0]->OpenAI_0;
            &&& after.clients@[0] is OpenAI
            &&& fields.api_key is Some ==> updated.api_key == fields.api_key
            &&& fields.api_key is None ==> updated.api_key == client.api_key
            &&& fields.organization_id is Some ==> updated.organization_id
                == fields.organization_id
            &&& fields.organization_id is None ==> updated.organization_id
                == client.organization_id
            &&& updated.extra is Some
            &&& updated.extra->0.proxy == fields.proxy
            &&& fields.connect_timeout is None <==> updated.extra->0.connect_timeout is None
            &&& fields.connect_timeout matches Some(timeout) ==> {
                &&& timeout >= 0 ==> updated.extra->0.connect_timeout->0 == timeout
                &&& timeout < 0 ==> updated.extra->0.connect_timeout->0 == timeout
                    + 0x1_0000_0000_0000_0000
            }
        }
        &&& after == (Config { model: after.model, clients: after.clients, ..before })
    }
}

proof fn lemma_taken_over(before: Config, fields: LegacyFields, openai: Seq<char>, after: Config)
    requires
        legacy_applied(before, fields, openai, after),
    ensures
        taken_over(before, fields, openai, after),
{
    reveal_strlit("gpt");
    assert("gpt"@ =~= seq!['g', 'p', 't']);
    if let Some(model) = fields.model {
        if model@.len() >= 3 {
            assert(model@.take(3) =~= model@.subrange(0, 3));
        }
    }
}

/// The settings of an old file are taken over.
pub proof fn law_old_settings_are_taken_over(
    config: &mut Config,
    fields: LegacyFields,
    openai: &str,
)
    requires
        call_ensures(Config::apply_legacy, (config, fields, openai), ()),
    ensures
        taken_over(*old(config), fields, openai@, *final(config)),
{
    lemma_taken_over(*old(config), fields, openai@, *final(config));
}

/// `after` is `before` with the settings of an old file taken over out of a table.
pub open spec fn taken_over_from(
    before: Config,
    entries: Seq<(Seq<char>, EntryView)>,
    openai: Seq<char>,
    after: Config,
) -> bool {
    exists|fields: LegacyFields| #[trigger]
        stand_in(entries, fields) && taken_over(before, fields, openai, after)
}

/// What comes of a file: what its table holds of old settings is taken over, from a document that
/// is no table nothing but empty settings; where there is no document the error says why, and
/// nothing changes.
pub open spec fn file_taken_over(
    before: Config,
    content: Seq<char>,
    openai: Seq<char>,
    after: Config,
    result: Result<(), ConfigError>,
) -> bool {
    &&& yaml_document(content) matches Ok(document) ==> {
        &&& result is Ok
        &&& document matches Some(entries) ==> taken_over_from(before, entries, openai, after)
        &&& document is None ==> taken_over_from(before, Seq::empty(), openai, after)
    }
    &&& yaml_document(content) matches Err(text) ==> {
        &&& result is Err
        &&& result->Err_0 is InvalidConfig
        &&& result->Err_0->InvalidConfig_0@ == text
        &&& after == before
    }
}

pub(crate) proof fn lemma_file_taken_over(
    before: Config,
    content: Seq<char>,
    openai: Seq<char>,
    after: Config,
    result: Result<(), ConfigError>,
)
    requires
        legacy_read(before, content, openai, after, result),
    ensures
        file_taken_over(before, content, openai, after, result),
{
    if let Ok(document) = yaml_document(content) {
        let fields = choose|fields: LegacyFields|
            {
                &&& #[trigger] fields_of(entries_in(document), fields)
                &&& legacy_applied(before, fields, openai, after)
                &&& result is Ok
            };
        lemma_stand_in(entries_in(document), fields);
        lemma_taken_over(before, fields, openai, after);
        assert(taken_over_from(before, entries_in(document), openai, after));
    }
}

/// A file is read for the old settings in it.
pub proof fn law_old_file_is_taken_over(
    config: &mut Config,
    content: &str,
    openai: &str,
    result: Result<(), ConfigError>,
)
    requires
        call_ensures(Config::compat_old_config, (config, content, openai), result),
    ensures
        file_taken_over(*old(config), content@, openai@, *final(config), result),
{
    lemma_file_taken_over(*old(config), content@, openai@, *final(config), result);
}

} // verus!
