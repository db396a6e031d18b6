use vstd::prelude::*;

use super::plugin_dir::{texts, AllowList};

verus! {

/// A value of a TOML document, of the crate `toml`. Nothing of it is seen
/// here but through the functions below.
#[verifier::external_type_specification]
#[verifier::external_body]
pub struct ExValue(toml::Value);

/// A table of a TOML document, of the crate `toml`: a map from keys to
/// values.
#[verifier::external_type_specification]
#[verifier::external_body]
#[verifier::reject_recursive_types(K)]
#[verifier::reject_recursive_types(V)]
pub struct ExMap<K, V>(toml::map::Map<K, V>);

/// The table that a text holds, read as a TOML document; nothing where the
/// text is no TOML document.
pub uninterp spec fn toml_document(text: Seq<char>) -> Option<toml::Table>;

/// The value that a table holds under a key.
pub uninterp spec fn table_lookup(table: toml::Table, key: Seq<char>) -> Option<toml::Value>;

/// The value that a value holds under a key, where it is a table.
pub uninterp spec fn value_lookup(value: toml::Value, key: Seq<char>) -> Option<toml::Value>;

/// The text of a value, where it is a text.
pub uninterp spec fn value_text(value: toml::Value) -> Option<Seq<char>>;

/// The items of a value, where it is an array.
pub uninterp spec fn value_items(value: toml::Value) -> Option<Seq<toml::Value>>;

/// `str::parse` for `toml::Table`: reads a text as a TOML document. The
/// outcome depends on the text alone; an error is given up for nothing.
#[verifier::external_body]
pub(crate) fn parse_table(text: &str) -> (table: Option<toml::Table>)
    ensures
        table == toml_document(text@),
{
    text.parse::<toml::Table>().ok()
}

/// `toml::map::Map::get`: the value under a key, where the table has the
/// key.
#[verifier::external_body]
pub(crate) fn table_value<'a>(table: &'a toml::Table, key: &str) -> (value: Option<
    &'a toml::Value,
>)
    ensures
        value matches Some(found) ==> table_lookup(*table, key@) == Some(*found),
        value is None ==> table_lookup(*table, key@) is None,
{
    table.get(key)
}

/// `toml::Value::get` with a text as index: the value under a key, where
/// the value is a table and has the key.
#[verifier::external_body]
pub(crate) fn value_entry<'a>(value: &'a toml::Value, key: &str) -> (entry: Option<
    &'a toml::Value,
>)
    ensures
        entry matches Some(found) ==> value_lookup(*value, key@) == Some(*found),
        entry is None ==> value_lookup(*value, key@) is None,
{
    value.get(key)
}

/// `toml::Value::as_str`: the text, where the value is a text.
#[verifier::external_body]
pub(crate) fn value_as_str<'a>(value: &'a toml::Value) -> (text: Option<&'a str>)
    ensures
        text matches Some(found) ==> value_text(*value) == Some(found@),
        text is None ==> value_text(*value) is None,
{
    value.as_str()
}

/// `toml::Value::as_array`: the items, where the value is an array.
#[verifier::external_body]
pub(crate) fn value_as_array<'a>(value: &'a toml::Value) -> (items: Option<&'a Vec<toml::Value>>)
    ensures
        items matches Some(found) ==> value_items(*value) == Some(found@),
        items is None ==> value_items(*value) is None,
{
    value.as_array()
}

/// What the configuration holds under `plugins`, as plain values.
pub enum PluginsEntry {
    /// The configuration has no such entry.
    Absent,
    /// The entry is no array.
    NotAList,
    /// The entry is an array. Each item is given by its text, and by
    /// nothing where it is no text.
    List(Vec<Option<String>>),
}

/// The texts among the items of an array, in the array's order.
pub open spec fn listed(items: Seq<Option<String>>) -> Seq<Seq<char>>
    decreases items.len(),
{
    if items.len() == 0 {
        Seq::empty()
    } else {
        match items.last() {
            Some(text) => listed(items.drop_last()).push(text@),
            None => listed(items.drop_last()),
        }
    }
}

/// The allow-list that the `plugins` entry of the configuration stands
/// for: none where the entry is missing, a broken one where it is no array,
/// and otherwise the texts of the array. Items that are no texts permit no
/// file.
pub fn allow_list_of(entry: PluginsEntry) -> (list: AllowList)
    ensures
        entry is Absent ==> list is Absent,
        entry is NotAList ==> list is Malformed,
        entry matches PluginsEntry::List(items) ==> (list matches AllowList::Names(names)
            && texts(names@) == listed(items@)),
{
    match entry {
        PluginsEntry::Absent => AllowList::Absent,
        PluginsEntry::NotAList => AllowList::Malformed,
        PluginsEntry::List(items) => {
            let mut names: Vec<String> = Vec::new();
            let mut i: usize = 0;
            proof {
                assert(items@.subrange(0, 0) =~= Seq::<Option<String>>::empty());
                assert(texts(names@) =~= listed(items@.subrange(0, 0)));
            }
            while i < items.len()
                invariant
                    i <= items.len(),
                    texts(names@) == listed(items@.subrange(0, i as int)),
                decreases items.len() - i,
            {
                proof {
                    let now = items@.subrange(0, i + 1);
                    assert(now.drop_last() =~= items@.subrange(0, i as int));
                    assert(now.last() == items@[i as int]);
                }
                let ghost before = names@;
                match &items[i] {
                    Some(text) => {
                        names.push(text.clone());
                        proof {
                            assert(texts(names@) =~= texts(before).push(text@));
                        }
                    },
                    None => {},
                }
                i += 1;
            }
            proof {
                assert(items@.subrange(0, items@.len() as int) =~= items@);
            }
            AllowList::Names(names)
        },
    }
}

/// Whether `list` gives each item of an array by its text, place by place.
pub open spec fn gives_texts(list: Seq<Option<String>>, items: Seq<toml::Value>) -> bool {
    &&& list.len() == items.len()
    &&& forall|i: int|
        0 <= i < list.len() ==> match #[trigger] list[i] {
            Some(text) => value_text(items[i]) == Some(text@),
            None => value_text(items[i]) is None,
        }
}

/// Reads a text as a configuration. Gives nothing where the text is no
/// TOML document.
pub fn parse_config(text: &str) -> (config: Option<toml::Table>)
    ensures
        config == toml_document(text@),
{
    parse_table(text)
}

/// Reads the `plugins` entry off a configuration.
pub fn plugins_entry(config: &toml::Table) -> (entry: PluginsEntry)
    ensures
        match table_lookup(*config, "plugins"@) {
            None => entry is Absent,
            Some(value) => match value_items(value) {
                None => entry is NotAList,
                Some(items) => entry matches PluginsEntry::List(list) && gives_texts(
                    list@,
                    items,
                ),
            },
        },
{
    let value = match table_value(config, "plugins") {
        Some(value) => value,
        None => {
            return PluginsEntry::Absent;
        },
    };
    let items = match value_as_array(value) {
        Some(items) => items,
        None => {
            return PluginsEntry::NotAList;
        },
    };
    let mut list: Vec<Option<String>> = Vec::new();
    let mut i: usize = 0;
    while i < items.len()
        invariant
            i <= items.len(),
            gives_texts(list@, items@.subrange(0, i as int)),
        decreases items.len() - i,
    {
        let item = match value_as_str(&items[i]) {
            Some(text) => Some(String::from_str(text)),
            None => None,
        };
        list.push(item);
        i += 1;
    }
    proof {
        assert(items@.subrange(0, items@.len() as int) =~= items@);
    }
    PluginsEntry::List(list)
}

/// The allow-list of a configuration.
pub fn allow_list(config: &toml::Table) -> (list: AllowList)
    ensures
        match table_lookup(*config, "plugins"@) {
            None => list is Absent,
            Some(value) => match value_items(value) {
                None => list is Malformed,
                Some(items) => list matches AllowList::Names(names) && exists|
                    given: Seq<Option<String>>,
                |
                    #[trigger] gives_texts(given, items) && texts(names@) == listed(given),
            },
        },
{
    allow_list_of(plugins_entry(config))
}

/// The plugin directory that a configuration names: the text under
/// `plugin_path`, where there is one.
pub fn configured_plugin_path(config: &toml::Table) -> (path: Option<String>)
    ensures
        match table_lookup(*config, "plugin_path"@) {
            None => path is None,
            Some(value) => match value_text(value) {
                None => path is None,
                Some(text) => path matches Some(found) && found@ == text,
            },
        },
{
    match table_value(config, "plugin_path") {
        Some(value) => match value_as_str(value) {
            Some(text) => Some(String::from_str(text)),
            None => None,
        },
        None => None,
    }
}

/// Looks up an entry of a category of the configuration and hands it to
/// `callback`. Says whether there is such an entry, in which case
/// `callback` has run on it; where there is none, `callback` is not called.
pub fn get_config_value<T, F: Fn(&toml::Value) -> T>(
    config: &toml::Table,
    category: &str,
    entry: &str,
    callback: F,
) -> (found: bool)
    requires
        forall|value: &toml::Value| call_requires(callback, (value,)),
    ensures
        found == match table_lookup(*config, category@) {
            None => false,
            Some(section) => value_lookup(section, entry@) is Some,
        },
        found ==> exists|given: T|
            call_ensures(
                callback,
                (&value_lookup(table_lookup(*config, category@).unwrap(), entry@).unwrap(),),
                given,
            ),
{
    if let Some(section) = table_value(config, category) {
        if let Some(value) = value_entry(section, entry) {
            let given = callback(value);
            proof {
                let found = value_lookup(table_lookup(*config, category@).unwrap(), entry@).unwrap();
                assert(found == *value);
                assert(call_ensures(callback, (&found,), given));
            }
            return true;
        }
    }
    false
}

} // verus!
