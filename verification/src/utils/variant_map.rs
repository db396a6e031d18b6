// Maps from texts to values as dynamic values.

use std::collections::HashMap;
use vstd::prelude::*;

use super::variant::{
    conforms, has_key, is_last_place, key_texts, last_place, lemma_last_place, Content, Payload,
    Shape, TVariant, Variant,
};

verus! {

/// Whether no two keys of a map hold the same text.
pub open spec fn text_keyed<V>(map: Map<String, V>) -> bool {
    forall|a: String, b: String|
        map.contains_key(a) && map.contains_key(b) && a@ == b@ ==> a == b
}

/// The key of a map that holds `text`.
pub open spec fn key_of<V>(map: Map<String, V>, text: Seq<char>) -> String {
    choose|key: String| map.contains_key(key) && key@ == text
}

/// Whether a map has a key that holds `text`.
pub open spec fn has_text<V>(map: Map<String, V>, text: Seq<char>) -> bool {
    exists|key: String| #[trigger] map.contains_key(key) && key@ == text
}

/// `HashMap::iter` of the standard library, collected: the entries of the
/// map, each once, in an order that nothing is said of. No two of them
/// have keys of the same text.
#[verifier::external_body]
fn entries_of<'a, V>(map: &'a HashMap<String, V>) -> (entries: Vec<(&'a String, &'a V)>)
    ensures
        forall|i: int|
            0 <= i < entries@.len() ==> map@.contains_key(*(#[trigger] entries@[i]).0)
                && map@[*entries@[i].0] == *entries@[i].1,
        forall|key: String| #[trigger]
            map@.contains_key(key) ==> exists|i: int|
                0 <= i < entries@.len() && *(#[trigger] entries@[i]).0 == key,
        forall|i: int, j: int|
            0 <= i < j < entries@.len() ==> (#[trigger] entries@[i]).0@ != (
            #[trigger] entries@[j]).0@,
{
    map.iter().collect()
}

/// `HashMap::insert` of the standard library, said of the keys' texts:
/// afterwards the map holds `value` under the one key of the text of `key`,
/// and every entry under another text as before.
#[verifier::external_body]
fn insert_entry<V>(map: &mut HashMap<String, V>, key: String, value: V)
    requires
        text_keyed(old(map)@),
    ensures
        text_keyed(final(map)@),
        has_text(final(map)@, key@),
        final(map)@[key_of(final(map)@, key@)] == value,
        forall|other: String| #[trigger]
            final(map)@.contains_key(other) && other@ != key@ ==> old(map)@.contains_key(other)
                && final(map)@[other] == old(map)@[other],
        forall|other: String| #[trigger]
            old(map)@.contains_key(other) && other@ != key@ ==> final(map)@.contains_key(other),
{
    map.insert(key, value);
}

impl<V: TVariant> TVariant for HashMap<String, V> {
    open spec fn tag() -> Shape {
        Shape::Dict(Box::new(V::tag()))
    }

    open spec fn content(&self) -> Content {
        Content::Dict(
            Map::new(
                |text: Seq<char>| has_text(self@, text),
                |text: Seq<char>| self@[key_of(self@, text)].content(),
            ),
        )
    }

    open spec fn alike(&self, other: &Self) -> bool {
        &&& forall|text: Seq<char>| has_text(self@, text) == has_text(other@, text)
        &&& forall|text: Seq<char>| #[trigger]
            has_text(self@, text) ==> self@[key_of(self@, text)].alike(
                &other@[key_of(other@, text)],
            )
    }

    proof fn content_conforms(&self) {
        let entries = self.content()->Dict_0;
        assert forall|text: Seq<char>| entries.contains_key(text) implies conforms(
            #[trigger] entries[text],
            V::tag(),
        ) by {
            self@[key_of(self@, text)].content_conforms();
        }
    }

    proof fn contents_tell(&self, other: &Self) {
        let left = self.content()->Dict_0;
        let right = other.content()->Dict_0;
        assert forall|text: Seq<char>| has_text(self@, text) == has_text(other@, text) by {
            assert(left.contains_key(text) == right.contains_key(text));
        }
        assert forall|text: Seq<char>| #[trigger] has_text(self@, text) implies self@[key_of(
            self@,
            text,
        )].alike(&other@[key_of(other@, text)]) by {
            assert(left.contains_key(text));
            assert(left[text] == right[text]);
            self@[key_of(self@, text)].contents_tell(&other@[key_of(other@, text)]);
        }
    }

    fn shape() -> (shape: Shape) {
        Shape::Dict(Box::new(V::shape()))
    }

    fn into_payload(self) -> (payload: Payload) {
        self.value()
    }

    fn value(&self) -> (payload: Payload) {
        let ghost map = self@;
        let entries = entries_of(self);
        let ghost given = entries@;
        let mut copies: Vec<(String, Payload)> = Vec::new();
        let mut i: usize = 0;
        while i < entries.len()
            invariant
                i <= entries.len(),
                given == entries@,
                copies@.len() == i,
                forall|j: int|
                    0 <= j < i ==> (#[trigger] copies@[j]).0 == *given[j].0 && copies@[j].1@
                        == given[j].1.content(),
            decreases entries.len() - i,
        {
            let (key, item) = entries[i];
            copies.push((key.clone(), item.value()));
            i += 1;
        }
        let payload = Payload::Dict(copies);
        proof {
            let keys = key_texts(copies@);
            let stored = payload.model()->Dict_0;
            let wanted = self.content()->Dict_0;
            assert forall|text: Seq<char>| stored.contains_key(text) <==> wanted.contains_key(
                text,
            ) by {
                if has_key(keys, text) {
                    let i = choose|i: int| 0 <= i < keys.len() && #[trigger] keys[i] == text;
                    assert(map.contains_key(*given[i].0));
                    assert(*given[i].0 == copies@[i].0);
                }
                if has_text(map, text) {
                    let key = key_of(map, text);
                    let i = choose|i: int|
                        0 <= i < given.len() && *(#[trigger] given[i]).0 == key;
                    assert(keys[i] == text);
                }
            }
            assert forall|text: Seq<char>| stored.contains_key(text) implies stored[text]
                == wanted[text] by {
                lemma_last_place(keys, text);
                let place = last_place(keys, text);
                let key = key_of(map, text);
                let i = choose|i: int|
                    0 <= i < given.len() && *(#[trigger] given[i]).0 == key;
                assert(given[i].0@ == given[place].0@);
                if i < place {
                    assert(given[i].0@ != given[place].0@);
                }
                if place < i {
                    assert(given[place].0@ != given[i].0@);
                }
                assert(map[*given[place].0] == *given[place].1);
            }
            assert(stored =~= wanted);
        }
        payload
    }

    fn from_payload(payload: &Payload) -> (value: Self) {
        let mut map: HashMap<String, V> = HashMap::new();
        match payload {
            Payload::Dict(entries) => {
                let ghost all = key_texts(entries@);
                let ghost stored = payload.model()->Dict_0;
                let mut i: usize = 0;
                while i < entries.len()
                    invariant
                        *payload == Payload::Dict(*entries),
                        conforms(payload@, Self::tag()),
                        all == key_texts(entries@),
                        stored == payload.model()->Dict_0,
                        i <= entries.len(),
                        text_keyed(map@),
                        forall|key: String| #[trigger]
                            map@.contains_key(key) ==> has_key(all, key@) && last_place(all, key@)
                                < i && map@[key].content() == entries@[last_place(
                                all,
                                key@,
                            )].1.model(),
                        forall|text: Seq<char>|
                            has_key(all, text) && 0 <= last_place(all, text) < i ==> has_text(
                                map@,
                                text,
                            ),
                    decreases entries.len() - i,
                {
                    let ghost before = map@;
                    let ghost text = entries@[i as int].0@;
                    proof {
                        assert(all[i as int] == text);
                        lemma_last_place(all, text);
                    }
                    if !later_has_key(entries, i) {
                        proof {
                            assert(is_last_place(all, text, i as int));
                            assert(stored.contains_key(text));
                            assert(conforms(stored[text], V::tag()));
                        }
                        let item = V::from_payload(&entries[i].1);
                        insert_entry(&mut map, entries[i].0.clone(), item);
                        proof {
                            assert forall|key: String| #[trigger] map@.contains_key(key) implies has_key(
                                all,
                                key@,
                            ) && last_place(all, key@) < i + 1 && map@[key].content()
                                == entries@[last_place(all, key@)].1.model() by {
                                if key@ == text {
                                    assert(key == key_of(map@, text));
                                } else {
                                    assert(before.contains_key(key));
                                }
                            }
                            assert forall|other: Seq<char>|
                                has_key(all, other) && 0 <= last_place(all, other) < i
                                    + 1 implies has_text(map@, other) by {
                                if other != text {
                                    lemma_last_place(all, other);
                                    assert(has_text(before, other));
                                    let key = key_of(before, other);
                                    assert(map@.contains_key(key));
                                }
                            }
                        }
                    } else {
                        proof {
                            assert(last_place(all, text) != i);
                            assert forall|other: Seq<char>|
                                has_key(all, other) && 0 <= last_place(all, other) < i
                                    + 1 implies has_text(map@, other) by {
                                lemma_last_place(all, other);
                            }
                        }
                    }
                    i += 1;
                }
                proof {
                    let made = map.content()->Dict_0;
                    assert forall|text: Seq<char>| stored.contains_key(text)
                        <==> made.contains_key(text) by {
                        if has_key(all, text) {
                            lemma_last_place(all, text);
                        }
                        if has_text(map@, text) {
                            let key = key_of(map@, text);
                            assert(has_key(all, key@));
                        }
                    }
                    assert forall|text: Seq<char>| stored.contains_key(text) implies stored[text]
                        == made[text] by {
                        lemma_last_place(all, text);
                        assert(has_text(map@, text));
                        let key = key_of(map@, text);
                        assert(map@.contains_key(key) && key@ == text);
                    }
                    assert(stored =~= made);
                }
            },
            _ => {},
        }
        map
    }

    fn into_variant(self) -> (variant: Variant) {
        proof {
            self.content_conforms();
        }
        Variant::from_parts(self.into_payload(), Self::shape())
    }
}

/// Whether the key at `place` stands again at a later place.
pub fn later_has_key(entries: &Vec<(String, Payload)>, place: usize) -> (again: bool)
    requires
        place < entries@.len(),
    ensures
        again == !is_last_place(key_texts(entries@), entries@[place as int].0@, place as int),
{
    let ghost keys = key_texts(entries@);
    let length = entries.len();
    let mut j: usize = place + 1;
    while j < entries.len()
        invariant
            keys == key_texts(entries@),
            place < j <= entries@.len(),
            forall|k: int| place < k < j ==> #[trigger] keys[k] != entries@[place as int].0@,
        decreases entries.len() - j,
    {
        if entries[j].0 == entries[place].0 {
            proof {
                assert(keys[j as int] == entries@[place as int].0@);
            }
            return true;
        }
        proof {
            assert(keys[j as int] == entries@[j as int].0@);
        }
        j += 1;
    }
    proof {
        assert(keys[place as int] == entries@[place as int].0@);
    }
    false
}

} // verus!
