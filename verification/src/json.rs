//! JSON values as the protocol reads and writes them.

use crate::text::same_text;
use vstd::prelude::*;

verus! {

/// A JSON value.
///
/// A number is held as an integer where it is one that fits `u64`; any other number is held as
/// its text. Where an object names a key twice, the later entry counts.
pub enum Json {
    Null,
    Bool(bool),
    Integer(u64),
    OtherNumber(String),
    Text(String),
    List(Vec<Json>),
    Object(Vec<(String, Json)>),
}

/// What a JSON value means.
pub enum JsonView {
    Null,
    Bool(bool),
    Integer(nat),
    OtherNumber(Seq<char>),
    Text(Seq<char>),
    List(Seq<JsonView>),
    Object(Map<Seq<char>, JsonView>),
}

/// The meaning of a JSON value.
pub open spec fn json_view(json: Json) -> JsonView
    decreases json,
{
    match json {
        Json::Null => JsonView::Null,
        Json::Bool(b) => JsonView::Bool(b),
        Json::Integer(n) => JsonView::Integer(n as nat),
        Json::OtherNumber(text) => JsonView::OtherNumber(text@),
        Json::Text(text) => JsonView::Text(text@),
        Json::List(items) => JsonView::List(list_view(items@)),
        Json::Object(entries) => JsonView::Object(object_view(entries@)),
    }
}

/// The meaning of the items of a list.
pub open spec fn list_view(items: Seq<Json>) -> Seq<JsonView>
    decreases items,
{
    if items.len() == 0 {
        Seq::empty()
    } else {
        list_view(items.drop_last()).push(json_view(items.last()))
    }
}

/// The meaning of the entries of an object: a later entry replaces an earlier one.
pub open spec fn object_view(entries: Seq<(String, Json)>) -> Map<Seq<char>, JsonView>
    decreases entries,
{
    if entries.len() == 0 {
        Map::empty()
    } else {
        object_view(entries.drop_last()).insert(entries.last().0@, json_view(entries.last().1))
    }
}

impl View for Json {
    type V = JsonView;

    open spec fn view(&self) -> JsonView {
        json_view(*self)
    }
}

impl JsonView {
    /// The value under a key, or null where there is none.
    pub open spec fn field(self, key: Seq<char>) -> JsonView {
        match self {
            JsonView::Object(entries) => if entries.contains_key(key) {
                entries[key]
            } else {
                JsonView::Null
            },
            _ => JsonView::Null,
        }
    }

    /// The text that the value is, if it is one.
    pub open spec fn text(self) -> Option<Seq<char>> {
        match self {
            JsonView::Text(text) => Some(text),
            _ => None,
        }
    }

    /// The truth value that the value is, if it is one.
    pub open spec fn boolean(self) -> Option<bool> {
        match self {
            JsonView::Bool(b) => Some(b),
            _ => None,
        }
    }

    /// The number that the value is, if it is an integer from zero to `u64::MAX`.
    pub open spec fn integer(self) -> Option<nat> {
        match self {
            JsonView::Integer(n) => Some(n),
            _ => None,
        }
    }

    /// The items of the value, if it is a list.
    pub open spec fn list(self) -> Option<Seq<JsonView>> {
        match self {
            JsonView::List(items) => Some(items),
            _ => None,
        }
    }
}

/// The items of a list keep their places.
pub proof fn list_view_at(items: Seq<Json>, i: int)
    requires
        0 <= i < items.len(),
    ensures
        list_view(items).len() == items.len(),
        list_view(items)[i] == items[i]@,
    decreases items.len(),
{
    list_view_len(items.drop_last());
    if i < items.len() - 1 {
        list_view_at(items.drop_last(), i);
    }
}

/// A list has as many meanings as items.
pub proof fn list_view_len(items: Seq<Json>)
    ensures
        list_view(items).len() == items.len(),
    decreases items.len(),
{
    if items.len() > 0 {
        list_view_len(items.drop_last());
    }
}

impl Json {
    /// The value under a key, if the value is an object with that key.
    pub fn get(&self, key: &str) -> (found: Option<&Json>)
        ensures
            match found {
                Some(json) => json@ == self@.field(key@),
                None => self@.field(key@) == JsonView::Null,
            },
    {
        match self {
            Json::Object(entries) => {
                let mut at: usize = entries.len();
                assert(entries@.take(at as int) == entries@);
                while at > 0
                    invariant
                        at <= entries@.len(),
                        *self == Json::Object(*entries),
                        self@.field(key@) == JsonView::Object(
                            object_view(entries@.take(at as int)),
                        ).field(key@),
                    decreases at,
                {
                    let ghost seen = entries@.take(at as int);
                    assert(seen.drop_last() == entries@.take(at - 1));
                    at -= 1;
                    if same_text(entries[at].0.as_str(), key) {
                        return Some(&entries[at].1);
                    }
                }
                None
            },
            _ => None,
        }
    }

    /// The text under a key, if the value is an object and holds a text there.
    pub fn text_at(&self, key: &str) -> (found: Option<&str>)
        ensures
            match found {
                Some(text) => self@.field(key@).text() == Some(text@),
                None => self@.field(key@).text() is None,
            },
    {
        match self.get(key) {
            Some(Json::Text(text)) => Some(text.as_str()),
            _ => None,
        }
    }

    /// Whether the value holds exactly this text under a key.
    pub fn holds(&self, key: &str, expected: &str) -> (same: bool)
        ensures
            same == (self@.field(key@) == JsonView::Text(expected@)),
    {
        match self.text_at(key) {
            Some(text) => same_text(text, expected),
            None => false,
        }
    }

    /// The truth value under a key, if the value is an object and holds one there.
    pub fn boolean_at(&self, key: &str) -> (found: Option<bool>)
        ensures
            found == self@.field(key@).boolean(),
    {
        match self.get(key) {
            Some(Json::Bool(b)) => Some(*b),
            _ => None,
        }
    }

    /// The number under a key, if the value is an object and holds an integer there.
    pub fn integer_at(&self, key: &str) -> (found: Option<u64>)
        ensures
            match found {
                Some(n) => self@.field(key@).integer() == Some(n as nat),
                None => self@.field(key@).integer() is None,
            },
    {
        match self.get(key) {
            Some(Json::Integer(n)) => Some(*n),
            _ => None,
        }
    }

    /// The items under a key, if the value is an object and holds a list there.
    pub fn list_at(&self, key: &str) -> (found: Option<&Vec<Json>>)
        ensures
            match found {
                Some(items) => self@.field(key@).list() == Some(list_view(items@)),
                None => self@.field(key@).list() is None,
            },
    {
        match self.get(key) {
            Some(Json::List(items)) => Some(items),
            _ => None,
        }
    }
}

impl Clone for Json {
    fn clone(&self) -> (copy: Json)
        ensures
            copy@ == self@,
        decreases self,
    {
        match self {
            Json::Null => Json::Null,
            Json::Bool(b) => Json::Bool(*b),
            Json::Integer(n) => Json::Integer(*n),
            Json::OtherNumber(text) => Json::OtherNumber(text.clone()),
            Json::Text(text) => Json::Text(text.clone()),
            Json::List(items) => {
                let mut copies: Vec<Json> = Vec::new();
                let mut at: usize = 0;
                while at < items.len()
                    invariant
                        at <= items@.len(),
                        *self == Json::List(*items),
                        list_view(copies@) == list_view(items@.take(at as int)),
                    decreases items@.len() - at,
                {
                    let ghost before = copies@;
                    assert(decreases_to!(self->List_0@ => self->List_0@[at as int]));
                    copies.push(items[at].clone());
                    assert(copies@.drop_last() == before);
                    assert(items@.take(at + 1).drop_last() == items@.take(at as int));
                    at += 1;
                }
                assert(items@.take(at as int) == items@);
                Json::List(copies)
            },
            Json::Object(entries) => {
                let mut copies: Vec<(String, Json)> = Vec::new();
                let mut at: usize = 0;
                while at < entries.len()
                    invariant
                        at <= entries@.len(),
                        *self == Json::Object(*entries),
                        object_view(copies@) == object_view(entries@.take(at as int)),
                    decreases entries@.len() - at,
                {
                    let ghost before = copies@;
                    assert(decreases_to!(self->Object_0@ => self->Object_0@[at as int]));
                    copies.push((entries[at].0.clone(), entries[at].1.clone()));
                    assert(copies@.drop_last() == before);
                    assert(entries@.take(at + 1).drop_last() == entries@.take(at as int));
                    at += 1;
                }
                assert(entries@.take(at as int) == entries@);
                Json::Object(copies)
            },
        }
    }
}

/// An object under construction.
pub struct Fields {
    pub entries: Vec<(String, Json)>,
}

impl View for Fields {
    type V = Map<Seq<char>, JsonView>;

    open spec fn view(&self) -> Map<Seq<char>, JsonView> {
        object_view(self.entries@)
    }
}

impl Fields {
    /// An object with no entry.
    pub fn new() -> (fields: Fields)
        ensures
            fields@ == Map::<Seq<char>, JsonView>::empty(),
    {
        Fields { entries: Vec::new() }
    }

    /// The object with one more entry.
    pub fn with(self, key: &str, value: Json) -> (fields: Fields)
        ensures
            fields@ == self@.insert(key@, value@),
    {
        let mut entries = self.entries;
        let ghost before = entries@;
        entries.push((key.to_owned(), value));
        assert(entries@.drop_last() == before);
        Fields { entries }
    }

    /// The object with one more entry, a text.
    pub fn with_text(self, key: &str, text: &str) -> (fields: Fields)
        ensures
            fields@ == self@.insert(key@, JsonView::Text(text@)),
    {
        self.with(key, Json::Text(text.to_owned()))
    }

    /// The finished object.
    pub fn object(self) -> (json: Json)
        ensures
            json@ == JsonView::Object(self@),
    {
        Json::Object(self.entries)
    }
}

} // verus!
