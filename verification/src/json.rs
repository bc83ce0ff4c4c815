//! A schema-less document tree for provider payloads, with typed accessors
//! that answer `None` wherever the document has another shape.

use crate::text::{find_last, keys_of, last_index_of};
use vstd::prelude::*;
use vstd::string::*;

verus! {

/// A JSON document.
///
/// A number that is an integer in the range of `i64` is an `Integer`; any other
/// number is kept as the text of its literal. An object keeps its entries in
/// the order they were written; where a key occurs twice the later entry
/// counts.
#[derive(Debug, PartialEq, Eq)]
pub enum Json {
    Null,
    Bool(bool),
    Integer(i64),
    Decimal(String),
    Text(String),
    List(Vec<Json>),
    Object(Vec<(String, Json)>),
}

/// The mathematical value of a [`Json`] document.
#[verifier::ext_equal]
pub ghost enum JsonView {
    Null,
    Bool(bool),
    Integer(int),
    Decimal(Seq<char>),
    Text(Seq<char>),
    List(Seq<JsonView>),
    Object(Seq<(Seq<char>, JsonView)>),
}

impl View for Json {
    type V = JsonView;

    open spec fn view(&self) -> JsonView
        decreases self,
    {
        match self {
            Json::Null => JsonView::Null,
            Json::Bool(b) => JsonView::Bool(*b),
            Json::Integer(n) => JsonView::Integer(*n as int),
            Json::Decimal(s) => JsonView::Decimal(s@),
            Json::Text(s) => JsonView::Text(s@),
            Json::List(items) => JsonView::List(
                Seq::new(
                    items@.len(),
                    |i: int|
                        if 0 <= i < items@.len() {
                            items@[i].view()
                        } else {
                            JsonView::Null
                        },
                ),
            ),
            Json::Object(entries) => JsonView::Object(
                Seq::new(
                    entries@.len(),
                    |i: int|
                        (
                            entries@[i].0@,
                            if 0 <= i < entries@.len() {
                                entries@[i].1.view()
                            } else {
                                JsonView::Null
                            },
                        ),
                ),
            ),
        }
    }
}

/// The values of a list of documents.
pub open spec fn items_view(items: Seq<Json>) -> Seq<JsonView> {
    Seq::new(items.len(), |i: int| items[i]@)
}

/// The keys and values of a list of object entries.
pub open spec fn entries_view(entries: Seq<(String, Json)>) -> Seq<(Seq<char>, JsonView)> {
    Seq::new(entries.len(), |i: int| (entries[i].0@, entries[i].1@))
}

/// The keys of the entries of an object's value.
pub open spec fn entry_keys(entries: Seq<(Seq<char>, JsonView)>) -> Seq<Seq<char>> {
    Seq::new(entries.len(), |i: int| entries[i].0)
}

/// The value of a list is the list of its items' values.
pub proof fn lemma_list_view(items: Vec<Json>)
    ensures
        Json::List(items)@ == JsonView::List(items_view(items@)),
{
    assert(Json::List(items)@->List_0 =~= items_view(items@));
}

/// The value of an object is the list of its entries' keys and values.
pub proof fn lemma_object_view(entries: Vec<(String, Json)>)
    ensures
        Json::Object(entries)@ == JsonView::Object(entries_view(entries@)),
{
    assert(Json::Object(entries)@->Object_0 =~= entries_view(entries@));
}

impl JsonView {
    /// Whether this is an object with an entry under `key`.
    pub open spec fn has_member(self, key: Seq<char>) -> bool {
        match self {
            JsonView::Object(entries) => last_index_of(entry_keys(entries), key) is Some,
            _ => false,
        }
    }

    /// The value stored under `key`: that of the last entry with this key where
    /// this is an object that has one, and `Null` otherwise.
    pub open spec fn member(self, key: Seq<char>) -> JsonView {
        match self {
            JsonView::Object(entries) => match last_index_of(entry_keys(entries), key) {
                Some(i) => entries[i].1,
                None => JsonView::Null,
            },
            _ => JsonView::Null,
        }
    }

    /// The item at `index` where this is a list that long, and `Null` otherwise.
    pub open spec fn item(self, index: int) -> JsonView {
        match self {
            JsonView::List(items) => if 0 <= index < items.len() {
                items[index]
            } else {
                JsonView::Null
            },
            _ => JsonView::Null,
        }
    }

    /// The characters of a text value.
    pub open spec fn as_text(self) -> Option<Seq<char>> {
        match self {
            JsonView::Text(s) => Some(s),
            _ => None,
        }
    }

    /// The number of an integer value.
    pub open spec fn as_integer(self) -> Option<int> {
        match self {
            JsonView::Integer(n) => Some(n),
            _ => None,
        }
    }

    /// The items of a list value.
    pub open spec fn as_items(self) -> Option<Seq<JsonView>> {
        match self {
            JsonView::List(items) => Some(items),
            _ => None,
        }
    }
}

impl Json {
    /// The value stored under `key`, where this is an object that has such an
    /// entry.
    pub fn get(&self, key: &str) -> (found: Option<&Json>)
        ensures
            found is Some == self@.has_member(key@),
            self@.member(key@) == match found {
                Some(value) => value@,
                None => JsonView::Null,
            },
    {
        match self {
            Json::Object(entries) => {
                proof {
                    lemma_object_view(*entries);
                    assert(entry_keys(entries_view(entries@)) =~= keys_of(entries@));
                }
                match find_last(entries, key) {
                    Some(i) => Some(&entries[i].1),
                    None => None,
                }
            },
            _ => None,
        }
    }

    /// The item at `index`, where this is a list that long.
    pub fn at(&self, index: usize) -> (found: Option<&Json>)
        ensures
            found is Some == (self@.as_items() matches Some(items) && index < items.len()),
            self@.item(index as int) == match found {
                Some(value) => value@,
                None => JsonView::Null,
            },
    {
        match self {
            Json::List(items) => {
                proof {
                    lemma_list_view(*items);
                }
                if index < items.len() {
                    Some(&items[index])
                } else {
                    None
                }
            },
            _ => None,
        }
    }

    /// The text of a text value.
    pub fn as_str(&self) -> (text: Option<&str>)
        ensures
            text.deep_view() == self@.as_text(),
    {
        match self {
            Json::Text(s) => Some(s.as_str()),
            _ => None,
        }
    }

    /// The number of an integer value.
    pub fn as_i64(&self) -> (number: Option<i64>)
        ensures
            number is Some == self@.as_integer() is Some,
            number matches Some(n) ==> self@.as_integer() == Some(n as int),
    {
        match self {
            Json::Integer(n) => Some(*n),
            _ => None,
        }
    }

    /// The items of a list value.
    pub fn as_array(&self) -> (items: Option<&Vec<Json>>)
        ensures
            match items {
                Some(list) => self@.as_items() == Some(items_view(list@)),
                None => self@.as_items() is None,
            },
    {
        match self {
            Json::List(items) => {
                proof {
                    lemma_list_view(*items);
                }
                Some(items)
            },
            _ => None,
        }
    }

    /// The text stored under `key`, where this is an object whose entry under
    /// that key is a text value.
    pub fn member_text(&self, key: &str) -> (text: Option<&str>)
        ensures
            text.deep_view() == self@.member(key@).as_text(),
    {
        match self.get(key) {
            Some(value) => value.as_str(),
            None => None,
        }
    }

    /// A text value holding the characters of `s`.
    pub fn text(s: &str) -> (value: Json)
        ensures
            value@ == JsonView::Text(s@),
    {
        Json::Text(s.to_owned())
    }

    /// A list value holding `items`.
    pub fn list(items: Vec<Json>) -> (value: Json)
        ensures
            value@ == JsonView::List(items_view(items@)),
    {
        proof {
            lemma_list_view(items);
        }
        Json::List(items)
    }

    /// An object value holding `entries`.
    pub fn object(entries: Vec<(String, Json)>) -> (value: Json)
        ensures
            value@ == JsonView::Object(entries_view(entries@)),
    {
        proof {
            lemma_object_view(entries);
        }
        Json::Object(entries)
    }

    /// An object value with the single entry `key: value`.
    pub fn object_of(key: &str, value: Json) -> (wrapped: Json)
        ensures
            wrapped@ == JsonView::Object(seq![(key@, value@)]),
    {
        let mut entries: Vec<(String, Json)> = Vec::new();
        entries.push((key.to_owned(), value));
        proof {
            lemma_object_view(entries);
            assert(entries_view(entries@) =~= seq![(key@, value@)]);
        }
        Json::Object(entries)
    }
}

} // verus!
