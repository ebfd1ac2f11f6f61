//! The JSON values that make up a request payload.
use vstd::prelude::*;

verus! {

/// A JSON value as a request payload holds it. An object keeps its members
/// in the order in which they were written.
#[derive(Debug)]
pub enum JsonValue {
    Null,
    Bool(bool),
    Int(i64),
    /// A number outside the range of `i64`, kept as its JSON text.
    Number(String),
    Str(String),
    Array(Vec<JsonValue>),
    Object(Vec<(String, JsonValue)>),
}

/// The mathematical model of a [`JsonValue`].
pub enum JsonView {
    Null,
    Bool(bool),
    Int(int),
    Number(Seq<char>),
    Str(Seq<char>),
    Array(Seq<JsonView>),
    Object(Seq<(Seq<char>, JsonView)>),
}

impl JsonValue {
    /// The model of this value: strings by their characters, sequences by
    /// their elements' models.
    pub open spec fn view(&self) -> JsonView
        decreases self,
    {
        match self {
            JsonValue::Null => JsonView::Null,
            JsonValue::Bool(b) => JsonView::Bool(*b),
            JsonValue::Int(i) => JsonView::Int(*i as int),
            JsonValue::Number(n) => JsonView::Number(n@),
            JsonValue::Str(s) => JsonView::Str(s@),
            JsonValue::Array(items) => JsonView::Array(
                Seq::new(
                    items@.len(),
                    |k: int|
                        if 0 <= k < items@.len() {
                            items@[k].view()
                        } else {
                            JsonView::Null
                        },
                ),
            ),
            JsonValue::Object(members) => JsonView::Object(
                Seq::new(
                    members@.len(),
                    |k: int|
                        if 0 <= k < members@.len() {
                            (members@[k].0@, members@[k].1.view())
                        } else {
                            (Seq::<char>::empty(), JsonView::Null)
                        },
                ),
            ),
        }
    }
}

/// The models of a list of object members.
pub open spec fn members_view(members: Seq<(String, JsonValue)>) -> Seq<(Seq<char>, JsonView)> {
    Seq::new(
        members.len(),
        |k: int|
            if 0 <= k < members.len() {
                (members[k].0@, members[k].1.view())
            } else {
                (Seq::<char>::empty(), JsonView::Null)
            },
    )
}

/// A JSON object with the given members, in order.
pub fn object(members: Vec<(String, JsonValue)>) -> (r: JsonValue)
    ensures
        r@ == JsonView::Object(members_view(members@)),
{
    let r = JsonValue::Object(members);
    assert(r@->Object_0 =~= members_view(members@));
    r
}

/// An object member whose value is an integer.
pub fn int_member(key: &str, value: i64) -> (r: (String, JsonValue))
    ensures
        r.0@ == key@,
        r.1@ == JsonView::Int(value as int),
{
    (key.to_owned(), JsonValue::Int(value))
}

/// An object member whose value is a boolean.
pub fn bool_member(key: &str, value: bool) -> (r: (String, JsonValue))
    ensures
        r.0@ == key@,
        r.1@ == JsonView::Bool(value),
{
    (key.to_owned(), JsonValue::Bool(value))
}

/// An object member whose value is a string.
pub fn str_member(key: &str, value: &str) -> (r: (String, JsonValue))
    ensures
        r.0@ == key@,
        r.1@ == JsonView::Str(value@),
{
    (key.to_owned(), JsonValue::Str(value.to_owned()))
}

/// An object member whose value is an owned string.
pub fn string_member(key: &str, value: String) -> (r: (String, JsonValue))
    ensures
        r.0@ == key@,
        r.1@ == JsonView::Str(value@),
{
    (key.to_owned(), JsonValue::Str(value))
}

} // verus!
