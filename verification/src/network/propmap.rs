use std::collections::HashMap;
use vstd::prelude::*;

use crate::utils::variant::{
    has_key, is_last_place, key_texts, last_place, lemma_last_place, read_as, wrapped, Content,
    Shape, TVariant, Variant, VariantView,
};

verus! {

/// The properties of an object on the bus: dynamic values under names.
/// Where a name is put twice, the later value counts.
pub struct PropMap {
    entries: Vec<(String, Variant)>,
}

/// What the entries hold under each name.
pub open spec fn properties_of(entries: Seq<(String, Variant)>) -> Map<Seq<char>, VariantView> {
    Map::new(
        |name: Seq<char>| has_key(key_texts(entries), name),
        |name: Seq<char>| entries[last_place(key_texts(entries), name)].1@,
    )
}

/// What a property holds when it is read as a `T`: its contents where the
/// property is there and of the type, nothing otherwise.
pub open spec fn property_as<T: TVariant>(
    properties: Map<Seq<char>, VariantView>,
    name: Seq<char>,
) -> Option<Content> {
    if properties.contains_key(name) {
        read_as::<T>(properties[name])
    } else {
        None
    }
}

/// What a property holds when it is read as a `T`, and `otherwise` where it
/// is not there or not of the type.
pub open spec fn read_or<T: TVariant>(
    properties: Map<Seq<char>, VariantView>,
    name: Seq<char>,
    otherwise: Content,
) -> Content {
    match property_as::<T>(properties, name) {
        Some(content) => content,
        None => otherwise,
    }
}

/// The text that contents hold; no text where they hold something else.
pub open spec fn text_in(content: Content) -> Seq<char> {
    match content {
        Content::Text(text) => text,
        _ => Seq::empty(),
    }
}

/// The number that contents hold; zero where they hold something else.
pub open spec fn number_in(content: Content) -> int {
    match content {
        Content::I32(number) => number as int,
        Content::U32(number) => number as int,
        _ => 0,
    }
}

/// The dynamic value that holds a text.
pub open spec fn text_value(text: Seq<char>) -> VariantView {
    VariantView { tag: Shape::Text, content: Content::Text(text) }
}

/// The dynamic value that holds a number of 32 bits.
pub open spec fn number_value(number: int) -> VariantView {
    VariantView { tag: Shape::I32, content: Content::I32(number as i32) }
}

/// Putting an entry at the end puts its value under its name and leaves
/// the other names as they are.
pub proof fn lemma_put_last(entries: Seq<(String, Variant)>, name: String, value: Variant)
    ensures
        properties_of(entries.push((name, value))) == properties_of(entries).insert(
            name@,
            value@,
        ),
{
    let after = entries.push((name, value));
    let keys = key_texts(entries);
    let keys_after = key_texts(after);
    assert(keys_after =~= keys.push(name@));
    let left = properties_of(after);
    let right = properties_of(entries).insert(name@, value@);
    assert forall|text: Seq<char>| left.contains_key(text) <==> right.contains_key(text) by {
        if has_key(keys_after, text) {
            let i = choose|i: int| 0 <= i < keys_after.len() && #[trigger] keys_after[i] == text;
            if i < keys.len() {
                assert(keys[i] == text);
            }
        }
        if has_key(keys, text) {
            let i = choose|i: int| 0 <= i < keys.len() && #[trigger] keys[i] == text;
            assert(keys_after[i] == text);
        }
        if text == name@ {
            assert(keys_after[keys.len() as int] == text);
        }
    }
    assert forall|text: Seq<char>| left.contains_key(text) implies left[text] == right[text] by {
        lemma_last_place(keys_after, text);
        if text == name@ {
            assert(is_last_place(keys_after, text, keys.len() as int));
        } else {
            let place = last_place(keys_after, text);
            assert(keys_after[place] == text);
            assert(place < keys.len());
            assert(keys[place] == text);
            assert forall|j: int| place < j < keys.len() implies #[trigger] keys[j] != text by {
                assert(keys_after[j] == keys[j]);
            }
            assert(is_last_place(keys, text, place));
            lemma_last_place(keys, text);
        }
    }
    assert(left =~= right);
}

impl View for PropMap {
    type V = Map<Seq<char>, VariantView>;

    closed spec fn view(&self) -> Map<Seq<char>, VariantView> {
        properties_of(self.entries@)
    }
}

impl PropMap {
    /// No properties.
    pub fn new() -> (map: Self)
        ensures
            map@ == Map::<Seq<char>, VariantView>::empty(),
    {
        let map = PropMap { entries: Vec::new() };
        proof {
            assert(map@ =~= Map::<Seq<char>, VariantView>::empty());
        }
        map
    }

    /// Puts a value under a name, in place of what was there.
    pub fn insert(&mut self, name: &str, value: Variant)
        ensures
            final(self)@ == old(self)@.insert(name@, value@),
    {
        let key = String::from_str(name);
        proof {
            lemma_put_last(self.entries@, key, value);
        }
        self.entries.push((key, value));
    }

    /// The value under a name.
    pub fn get(&self, name: &str) -> (value: Option<&Variant>)
        ensures
            self@.contains_key(name@) <==> value is Some,
            value matches Some(found) ==> found@ == self@[name@],
    {
        let ghost keys = key_texts(self.entries@);
        let wanted = String::from_str(name);
        let mut i: usize = self.entries.len();
        while i > 0
            invariant
                keys == key_texts(self.entries@),
                wanted@ == name@,
                i <= self.entries@.len(),
                forall|j: int| i <= j < keys.len() ==> #[trigger] keys[j] != name@,
            decreases i,
        {
            i -= 1;
            if self.entries[i].0 == wanted {
                proof {
                    assert(keys[i as int] == name@);
                    assert(is_last_place(keys, name@, i as int));
                    lemma_last_place(keys, name@);
                }
                return Some(&self.entries[i].1);
            }
            proof {
                assert(keys[i as int] == self.entries@[i as int].0@);
            }
        }
        None
    }

    /// The value under a name, read as a `T`.
    pub fn cast<T: TVariant + Clone>(&self, name: &str) -> (value: Option<T>)
        ensures
            match property_as::<T>(self@, name@) {
                Some(content) => value matches Some(found) && found.content() == content,
                None => value is None,
            },
    {
        match self.get(name) {
            Some(found) => match found.to_value_cloned::<T>() {
                Ok(value) => Some(value),
                Err(_) => None,
            },
            None => None,
        }
    }

    /// The value under a name, read as a `T`; `otherwise` where there is
    /// none of that type.
    pub fn cast_or<T: TVariant + Clone>(&self, name: &str, otherwise: T) -> (value: T)
        ensures
            value.content() == read_or::<T>(self@, name@, otherwise.content()),
    {
        match self.cast::<T>(name) {
            Some(found) => found,
            None => otherwise,
        }
    }

    /// The text under a name; `otherwise` where there is none.
    pub fn text_or(&self, name: &str, otherwise: &str) -> (text: String)
        ensures
            text.content() == read_or::<String>(self@, name@, Content::Text(otherwise@)),
    {
        match self.cast::<String>(name) {
            Some(found) => found,
            None => String::from_str(otherwise),
        }
    }

    /// The list under a name; an empty one where there is none.
    pub fn list<T: TVariant + Clone>(&self, name: &str) -> (items: Vec<T>)
        ensures
            items.content() == read_or::<Vec<T>>(self@, name@, Content::List(Seq::empty())),
    {
        match self.cast::<Vec<T>>(name) {
            Some(found) => found,
            None => {
                let items: Vec<T> = Vec::new();
                proof {
                    assert(items.content()->List_0 =~= Seq::<Content>::empty());
                }
                items
            },
        }
    }

    /// The texts under texts that stand under a name; none where there is
    /// nothing of the kind.
    pub fn dict(&self, name: &str) -> (entries: HashMap<String, String>)
        ensures
            entries.content() == read_or::<HashMap<String, String>>(
                self@,
                name@,
                Content::Dict(Map::empty()),
            ),
    {
        match self.cast::<HashMap<String, String>>(name) {
            Some(found) => found,
            None => {
                let entries: HashMap<String, String> = HashMap::new();
                proof {
                    assert(entries.content()->Dict_0 =~= Map::<Seq<char>, Content>::empty());
                }
                entries
            },
        }
    }

    /// Puts a copy of a value under a name, in place of what was there.
    pub fn put<T: TVariant>(&mut self, name: &str, value: &T)
        ensures
            final(self)@ == old(self)@.insert(name@, wrapped(*value)),
    {
        self.insert(name, Variant::copy_of(value));
    }

    /// Every entry that was put, in the order of putting.
    pub fn entries(&self) -> (entries: &Vec<(String, Variant)>)
        ensures
            properties_of(entries@) == self@,
    {
        &self.entries
    }
}

} // verus!
