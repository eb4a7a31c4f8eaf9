//! JSON documents as trees of plain values.

use crate::model::{option_view, result_view};
use vstd::prelude::*;

verus! {

/// `serde_json::Value`, the document as the parser hands it over. Nothing is
/// known of a value of it here: it is turned into a [`Json`] at once.
#[verifier::external_type_specification]
#[verifier::external_body]
pub struct ExValue(serde_json::Value);

/// A named member of a JSON object.
#[derive(Debug, PartialEq, Eq)]
pub struct Member {
    pub name: String,
    pub value: Json,
}

/// A JSON document.
#[derive(Debug, PartialEq, Eq)]
pub enum Json {
    Null,
    Bool(bool),
    /// A number: its value where it is a whole number from 0 to `u64::MAX`,
    /// nothing otherwise.
    Number(Option<u64>),
    Text(String),
    Array(Vec<Json>),
    Object(Vec<Member>),
}

/// The mathematical value of a [`Json`] document.
pub enum JsonView {
    Null,
    Bool(bool),
    Number(Option<u64>),
    Text(Seq<char>),
    Array(Seq<JsonView>),
    Object(Seq<(Seq<char>, JsonView)>),
}

impl View for Json {
    type V = JsonView;

    open spec fn view(&self) -> JsonView
        decreases self,
    {
        match self {
            Json::Null => JsonView::Null,
            Json::Bool(b) => JsonView::Bool(*b),
            Json::Number(n) => JsonView::Number(*n),
            Json::Text(s) => JsonView::Text(s@),
            Json::Array(items) => JsonView::Array(
                Seq::new(
                    items.len() as nat,
                    |i: int|
                        if 0 <= i < items.len() {
                            items[i]@
                        } else {
                            JsonView::Null
                        },
                ),
            ),
            Json::Object(members) => JsonView::Object(
                Seq::new(
                    members.len() as nat,
                    |i: int|
                        if 0 <= i < members.len() {
                            (members[i].name@, members[i].value@)
                        } else {
                            (Seq::empty(), JsonView::Null)
                        },
                ),
            ),
        }
    }
}

/// What `serde_json::from_slice` reads from the given bytes as a
/// `serde_json::Value`: the document, or the text of the error.
pub uninterp spec fn parsed(bytes: Seq<u8>) -> Result<JsonView, Seq<char>>;

/// Turns a `serde_json::Value` into a [`Json`], variant by variant: a number
/// by `serde_json::Number::as_u64`, the elements of an array and the members
/// of an object in the order in which the value hands them out. Nothing is
/// stated of it alone; [`parse`] says what the two give together.
#[verifier::external_body]
fn tree_of(value: serde_json::Value) -> Json {
    match value {
        serde_json::Value::Null => Json::Null,
        serde_json::Value::Bool(b) => Json::Bool(b),
        serde_json::Value::Number(n) => Json::Number(n.as_u64()),
        serde_json::Value::String(s) => Json::Text(s),
        serde_json::Value::Array(items) => Json::Array(items.into_iter().map(tree_of).collect()),
        serde_json::Value::Object(map) => Json::Object(
            map.into_iter().map(|(name, value)| Member { name, value: tree_of(value) }).collect(),
        ),
    }
}

/// Calls `serde_json::from_slice` for a `serde_json::Value` and hands back
/// the document as a [`Json`], or the text that the error displays. The
/// contract claims one thing: that the result depends on the bytes alone.
#[verifier::external_body]
pub(crate) fn parse(bytes: &[u8]) -> (r: Result<Json, String>)
    ensures
        result_view(r) == parsed(bytes@),
{
    match serde_json::from_slice::<serde_json::Value>(bytes) {
        Ok(value) => Ok(tree_of(value)),
        Err(e) => Err(e.to_string()),
    }
}

impl JsonView {
    /// The value of the member `name`, where this is an object that has one;
    /// the first, where several members share the name.
    pub open spec fn member(self, name: Seq<char>) -> Option<JsonView> {
        match self {
            JsonView::Object(members) => find(members, name),
            _ => None,
        }
    }

    /// The characters of a string.
    pub open spec fn text(self) -> Option<Seq<char>> {
        match self {
            JsonView::Text(text) => Some(text),
            _ => None,
        }
    }

    /// The value of a number that is a whole number from 0 to `u64::MAX`.
    pub open spec fn unsigned(self) -> Option<u64> {
        match self {
            JsonView::Number(n) => n,
            _ => None,
        }
    }

    /// The elements of an array.
    pub open spec fn items(self) -> Option<Seq<JsonView>> {
        match self {
            JsonView::Array(items) => Some(items),
            _ => None,
        }
    }

    /// The characters of the member `name`, where it is there and a string.
    pub open spec fn text_member(self, name: Seq<char>) -> Option<Seq<char>> {
        match self.member(name) {
            Some(value) => value.text(),
            None => None,
        }
    }

    /// The value of the member `name`, where it is there and a whole number
    /// from 0 to `u64::MAX`.
    pub open spec fn unsigned_member(self, name: Seq<char>) -> Option<u64> {
        match self.member(name) {
            Some(value) => value.unsigned(),
            None => None,
        }
    }

    /// The member `name` read as a string that may be left out: no text
    /// where the member is missing or `null`, its characters where it is a
    /// string, and no reading at all where it is anything else.
    pub open spec fn optional_text_member(self, name: Seq<char>) -> Option<Option<Seq<char>>> {
        match self.member(name) {
            None => Some(None),
            Some(JsonView::Null) => Some(None),
            Some(JsonView::Text(text)) => Some(Some(text)),
            Some(_) => None,
        }
    }
}

/// The value of the first of `members` that is called `name`.
pub open spec fn find(members: Seq<(Seq<char>, JsonView)>, name: Seq<char>) -> Option<JsonView>
    decreases members.len(),
{
    if members.len() == 0 {
        None
    } else if members[0].0 == name {
        Some(members[0].1)
    } else {
        find(members.drop_first(), name)
    }
}

/// The values of a list of documents, one by one.
pub open spec fn views(docs: Seq<Json>) -> Seq<JsonView> {
    Seq::new(docs.len(), |i: int| docs[i]@)
}

/// The names and values of a list of members, one by one.
pub open spec fn member_views(members: Seq<Member>) -> Seq<(Seq<char>, JsonView)> {
    Seq::new(members.len(), |i: int| (members[i].name@, members[i].value@))
}

/// An array's value holds the values of its elements, in their order.
pub proof fn lemma_array_view(items: Vec<Json>)
    ensures
        Json::Array(items)@ == JsonView::Array(views(items@)),
{
    reveal_with_fuel(<Json as View>::view, 2);
    assert(Json::Array(items)@->Array_0 =~= views(items@));
}

/// An object's value holds the names and values of its members, in their
/// order.
pub proof fn lemma_object_view(members: Vec<Member>)
    ensures
        Json::Object(members)@ == JsonView::Object(member_views(members@)),
{
    reveal_with_fuel(<Json as View>::view, 2);
    assert(Json::Object(members)@->Object_0 =~= member_views(members@));
}

impl Json {
    /// Looks up a member of an object by its name.
    pub fn member(&self, name: &str) -> (r: Option<&Json>)
        ensures
            option_view(r) == self@.member(name@),
    {
        match self {
            Json::Object(members) => {
                let key = String::from_str(name);
                let ghost all = member_views(members@);
                proof {
                    lemma_object_view(*members);
                    assert(all.subrange(0, all.len() as int) == all);
                }
                let mut i: usize = 0;
                while i < members.len()
                    invariant
                        i <= members.len(),
                        key@ == name@,
                        all == member_views(members@),
                        self@ == JsonView::Object(all),
                        find(all, name@) == find(all.subrange(i as int, all.len() as int), name@),
                    decreases members.len() - i,
                {
                    let ghost rest = all.subrange(i as int, all.len() as int);
                    assert(rest[0] == all[i as int]);
                    if members[i].name == key {
                        return Some(&members[i].value);
                    }
                    assert(rest.drop_first() == all.subrange(i + 1, all.len() as int));
                    i += 1;
                }
                None
            },
            _ => None,
        }
    }

    /// The characters of a string.
    pub fn text(&self) -> (r: Option<&String>)
        ensures
            match r {
                Some(text) => self@.text() == Some(text@),
                None => self@.text() is None,
            },
    {
        match self {
            Json::Text(text) => Some(text),
            _ => None,
        }
    }

    /// The value of a number that is a whole number from 0 to `u64::MAX`.
    pub fn unsigned(&self) -> (r: Option<u64>)
        ensures
            r == self@.unsigned(),
    {
        match self {
            Json::Number(n) => *n,
            _ => None,
        }
    }

    /// The characters of the member `name`, where it is there and a string.
    pub fn text_member(&self, name: &str) -> (r: Option<String>)
        ensures
            option_view(r) == self@.text_member(name@),
    {
        match self.member(name) {
            Some(value) => match value.text() {
                Some(text) => Some(text.clone()),
                None => None,
            },
            None => None,
        }
    }

    /// The value of the member `name`, where it is there and a whole number
    /// from 0 to `u64::MAX`.
    pub fn unsigned_member(&self, name: &str) -> (r: Option<u64>)
        ensures
            r == self@.unsigned_member(name@),
    {
        match self.member(name) {
            Some(value) => value.unsigned(),
            None => None,
        }
    }

    /// The member `name` read as a string that may be left out.
    pub fn optional_text_member(&self, name: &str) -> (r: Option<Option<String>>)
        ensures
            match r {
                Some(text) => self@.optional_text_member(name@) == Some(option_view(text)),
                None => self@.optional_text_member(name@) is None,
            },
    {
        match self.member(name) {
            None => Some(None),
            Some(Json::Null) => Some(None),
            Some(Json::Text(text)) => Some(Some(text.clone())),
            Some(_) => None,
        }
    }

    /// The elements of an array.
    pub fn items(&self) -> (r: Option<&Vec<Json>>)
        ensures
            match r {
                Some(items) => self@.items() == Some(views(items@)),
                None => self@.items() is None,
            },
    {
        match self {
            Json::Array(items) => {
                proof {
                    lemma_array_view(*items);
                }
                Some(items)
            },
            _ => None,
        }
    }
}

} // verus!
