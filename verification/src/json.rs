//! JSON values, what the server reads from them, and how they are read from
//! and written to text.
//!
//! The text side is the work of `serde_json`; the items that call it stand at
//! the end of this file, and their contracts are believed, not proved.

use crate::text::lines_of;
use vstd::prelude::*;

verus! {

/// One member of a JSON object: a key and the value stored under it.
#[derive(Debug, PartialEq, Eq)]
pub struct Member {
    pub key: String,
    pub value: Json,
}

/// A JSON value.
///
/// A number is kept as a JSON literal. What is read from text holds the
/// literal that `serde_json` prints for the number: an integer within 64 bits
/// and a fraction as they are, an integer beyond 64 bits as the
/// floating-point number nearest to it. What is written to text is read from the literal in the
/// same way. An object keeps its members in a list; where a key occurs more
/// than once, the last occurrence counts.
#[derive(Debug, PartialEq, Eq)]
pub enum Json {
    Null,
    Bool(bool),
    Number(String),
    Str(String),
    Array(Vec<Json>),
    Object(Vec<Member>),
}

/// The mathematical value of a [`Json`].
pub enum JsonView {
    Null,
    Bool(bool),
    Number(Seq<char>),
    Str(Seq<char>),
    Array(Seq<JsonView>),
    Object(Seq<MemberView>),
}

/// The mathematical value of a [`Member`].
pub struct MemberView {
    pub key: Seq<char>,
    pub value: JsonView,
}

impl View for Json {
    type V = JsonView;

    open spec fn view(&self) -> JsonView
        decreases self,
    {
        match self {
            Json::Null => JsonView::Null,
            Json::Bool(b) => JsonView::Bool(*b),
            Json::Number(literal) => JsonView::Number(literal@),
            Json::Str(text) => JsonView::Str(text@),
            Json::Array(items) => JsonView::Array(
                Seq::new(
                    items@.len(),
                    |i: int|
                        if 0 <= i < items@.len() {
                            items@[i]@
                        } else {
                            JsonView::Null
                        },
                ),
            ),
            Json::Object(members) => JsonView::Object(
                Seq::new(
                    members@.len(),
                    |i: int|
                        if 0 <= i < members@.len() {
                            MemberView { key: members@[i].key@, value: members@[i].value@ }
                        } else {
                            MemberView { key: Seq::empty(), value: JsonView::Null }
                        },
                ),
            ),
        }
    }
}

/// The values of a list of JSON values, one for one.
pub open spec fn views(items: Seq<Json>) -> Seq<JsonView> {
    Seq::new(items.len(), |i: int| items[i]@)
}

/// The keys and values of a list of members, one for one.
pub open spec fn member_views(members: Seq<Member>) -> Seq<MemberView> {
    Seq::new(
        members.len(),
        |i: int| MemberView { key: members[i].key@, value: members[i].value@ },
    )
}

/// The string value that holds `text`.
pub open spec fn string(text: &str) -> JsonView {
    JsonView::Str(text@)
}

/// A member with the key `key` and the value `value`.
pub open spec fn field(key: &str, value: JsonView) -> MemberView {
    MemberView { key: key@, value }
}

/// The value of an optional JSON value.
pub open spec fn option_view(value: Option<Json>) -> Option<JsonView> {
    match value {
        Some(v) => Some(v@),
        None => None,
    }
}

/// The value of an optional reference to a JSON value.
pub open spec fn ref_view(value: Option<&Json>) -> Option<JsonView> {
    match value {
        Some(v) => Some(v@),
        None => None,
    }
}

/// The value stored under `key` in a member list: that of the last member
/// with this key, if there is one.
pub open spec fn find_member(members: Seq<MemberView>, key: Seq<char>) -> Option<JsonView>
    decreases members.len(),
{
    if members.len() == 0 {
        None
    } else if members.last().key == key {
        Some(members.last().value)
    } else {
        find_member(members.drop_last(), key)
    }
}

/// The strings among `items`, in their order; every other entry is left out.
pub open spec fn strings_in(items: Seq<JsonView>) -> Seq<Seq<char>> {
    items.filter_map(|item: JsonView| item.as_text())
}

impl JsonView {
    /// The text of a string value; `None` for every other value.
    pub open spec fn as_text(self) -> Option<Seq<char>> {
        match self {
            JsonView::Str(text) => Some(text),
            _ => None,
        }
    }

    /// The entries of an array; `None` for every other value.
    pub open spec fn as_items(self) -> Option<Seq<JsonView>> {
        match self {
            JsonView::Array(items) => Some(items),
            _ => None,
        }
    }

    /// The value under `key` of an object; `None` where the key is missing
    /// or the value is no object.
    pub open spec fn member(self, key: Seq<char>) -> Option<JsonView> {
        match self {
            JsonView::Object(members) => find_member(members, key),
            _ => None,
        }
    }

    /// The object without members.
    pub open spec fn object() -> JsonView {
        JsonView::Object(Seq::empty())
    }

    /// The object with one more member at its end; any other value is left
    /// as it is.
    pub open spec fn with(self, key: &str, value: JsonView) -> JsonView {
        match self {
            JsonView::Object(members) => JsonView::Object(members.push(field(key, value))),
            other => other,
        }
    }

    /// The array with the one entry `item`.
    pub open spec fn list_of(item: JsonView) -> JsonView {
        JsonView::Array(Seq::empty().push(item))
    }

    /// A value that is present and not `null`.
    pub open spec fn present(value: Option<JsonView>) -> Option<JsonView> {
        match value {
            Some(JsonView::Null) => None,
            other => other,
        }
    }
}

/// An array holds the values of its entries.
pub proof fn lemma_array_view(items: Vec<Json>)
    ensures
        Json::Array(items)@ == JsonView::Array(views(items@)),
{
    assert(Json::Array(items)@->Array_0 =~= views(items@));
}

/// An object holds the keys and values of its members.
pub proof fn lemma_object_view(members: Vec<Member>)
    ensures
        Json::Object(members)@ == JsonView::Object(member_views(members@)),
{
    assert(Json::Object(members)@->Object_0 =~= member_views(members@));
}

/// What an object holds under a key once a member was added at its end: the
/// new value under the new key, and what it held before under every other.
pub proof fn lemma_member_added(object: JsonView, key: &str, value: JsonView, wanted: Seq<char>)
    requires
        object is Object,
    ensures
        object.with(key, value).member(wanted) == if key@ == wanted {
            Some(value)
        } else {
            object.member(wanted)
        },
{
    let before = object->Object_0;
    let after = object.with(key, value)->Object_0;
    assert(after.last().key == key@);
    assert(after.last().value == value);
    assert(after.drop_last() =~= before);
}

impl Json {
    /// A string value holding `text`.
    pub fn text(text: &str) -> (r: Json)
        ensures
            r@ == JsonView::Str(text@),
    {
        Json::Str(text.to_owned())
    }

    /// A number with the JSON literal `literal`.
    pub fn number(literal: &str) -> (r: Json)
        ensures
            r@ == JsonView::Number(literal@),
    {
        Json::Number(literal.to_owned())
    }

    /// The object without members.
    pub fn object() -> (r: Json)
        ensures
            r@ == JsonView::object(),
    {
        let members: Vec<Member> = Vec::new();
        proof {
            lemma_object_view(members);
            assert(member_views(members@) =~= Seq::empty());
        }
        Json::Object(members)
    }

    /// The object with one more member at its end; any other value is left
    /// as it is.
    pub fn with(self, key: &str, value: Json) -> (r: Json)
        ensures
            r@ == self@.with(key, value@),
    {
        match self {
            Json::Object(mut members) => {
                let ghost before = member_views(members@);
                proof {
                    lemma_object_view(members);
                }
                members.push(Member { key: key.to_owned(), value });
                proof {
                    lemma_object_view(members);
                    assert(member_views(members@) =~= before.push(field(key, value@)));
                }
                Json::Object(members)
            },
            other => other,
        }
    }

    /// The array with the one entry `item`.
    pub fn list_of(item: Json) -> (r: Json)
        ensures
            r@ == JsonView::list_of(item@),
    {
        let mut items: Vec<Json> = Vec::new();
        items.push(item);
        proof {
            lemma_array_view(items);
            assert(views(items@) =~= Seq::empty().push(item@));
        }
        Json::Array(items)
    }

    /// An array holding `items`.
    pub fn array(items: Vec<Json>) -> (r: Json)
        ensures
            r@ == JsonView::Array(views(items@)),
    {
        proof {
            lemma_array_view(items);
        }
        Json::Array(items)
    }

    /// The text of a string value.
    pub fn as_str(&self) -> (r: Option<&String>)
        ensures
            match r {
                Some(text) => self@.as_text() == Some(text@),
                None => self@.as_text() is None,
            },
    {
        match self {
            Json::Str(text) => Some(text),
            _ => None,
        }
    }

    /// The entries of an array.
    pub fn as_array(&self) -> (r: Option<&Vec<Json>>)
        ensures
            match r {
                Some(items) => self@.as_items() == Some(views(items@)),
                None => self@.as_items() is None,
            },
    {
        match self {
            Json::Array(items) => {
                proof {
                    lemma_array_view(*items);
                }
                Some(items)
            },
            _ => None,
        }
    }

    /// The value stored under `key`, where `self` is an object that has it.
    pub fn get(&self, key: &str) -> (r: Option<&Json>)
        ensures
            match r {
                Some(value) => self@.member(key@) == Some(value@),
                None => self@.member(key@) is None,
            },
    {
        match self {
            Json::Object(members) => {
                proof {
                    lemma_object_view(*members);
                }
                let wanted = key.to_owned();
                let ghost all = member_views(members@);
                let mut i: usize = members.len();
                proof {
                    assert(all.subrange(0, i as int) == all);
                }
                while i > 0
                    invariant
                        i <= members.len(),
                        wanted@ == key@,
                        all == member_views(members@),
                        self@.member(key@) == find_member(all, key@),
                        find_member(all, key@) == find_member(all.subrange(0, i as int), key@),
                    decreases i,
                {
                    i -= 1;
                    let ghost upto = all.subrange(0, i + 1);
                    proof {
                        assert(upto.last() == all[i as int]);
                        assert(upto.drop_last() == all.subrange(0, i as int));
                    }
                    if members[i].key == wanted {
                        proof {
                            assert(find_member(upto, key@) == Some(members@[i as int].value@));
                        }
                        return Some(&members[i].value);
                    }
                }
                None
            },
            _ => None,
        }
    }
}

/// The strings among `items`, in their order.
pub fn string_items(items: &Vec<Json>) -> (r: Vec<String>)
    ensures
        lines_of(r@) == strings_in(views(items@)),
{
    let ghost pick = |item: JsonView| item.as_text();
    let ghost all = views(items@);
    let mut out: Vec<String> = Vec::new();
    let mut i: usize = 0;
    while i < items.len()
        invariant
            i <= items.len(),
            all == views(items@),
            pick == |item: JsonView| item.as_text(),
            lines_of(out@) == all.take(i as int).filter_map(pick),
        decreases items.len() - i,
    {
        let ghost before = lines_of(out@);
        proof {
            all.lemma_filter_map_take_succ(pick, i as int);
        }
        match &items[i] {
            Json::Str(text) => {
                out.push(text.clone());
                assert(lines_of(out@) =~= before + seq![text@]);
            },
            _ => {},
        }
        i += 1;
    }
    proof {
        assert(all.take(items.len() as int) == all);
    }
    out
}

/// `serde_json::Value`: a value of it is carried through, never looked into.
#[verifier::external_type_specification]
#[verifier::external_body]
pub struct ExValue(serde_json::Value);

/// The JSON value that `serde_json::from_str` reads from `text`, and `None`
/// where it reports an error. A number stands as the literal that
/// `serde_json` prints for it, the members of an object in the order in which
/// `serde_json::Map` hands them out.
pub uninterp spec fn json_parsed(text: Seq<char>) -> Option<JsonView>;

/// The compact JSON text that `serde_json` writes for `value`. A number
/// whose literal `serde_json` cannot read is written as `null`.
pub uninterp spec fn json_rendered(value: JsonView) -> Seq<char>;

/// Turns a `serde_json::Value` into a [`Json`], variant by variant: a number
/// becomes the literal that `serde_json::Number` prints, an object the list
/// of its entries in the order in which `serde_json::Map` hands them out.
#[verifier::external_body]
fn from_value(value: serde_json::Value) -> Json {
    match value {
        serde_json::Value::Null => Json::Null,
        serde_json::Value::Bool(b) => Json::Bool(b),
        serde_json::Value::Number(n) => Json::Number(n.to_string()),
        serde_json::Value::String(s) => Json::Str(s),
        serde_json::Value::Array(a) => Json::Array(a.into_iter().map(from_value).collect()),
        serde_json::Value::Object(m) => Json::Object(
            m.into_iter().map(|(key, v)| Member { key, value: from_value(v) }).collect(),
        ),
    }
}

/// Turns a [`Json`] into a `serde_json::Value`, variant by variant: a number
/// is read back from its literal by `serde_json::from_str` and becomes `null`
/// where that fails; the members of an object are collected into a
/// `serde_json::Map`, which keeps the last value of a repeated key.
#[verifier::external_body]
fn to_value(value: &Json) -> serde_json::Value {
    match value {
        Json::Null => serde_json::Value::Null,
        Json::Bool(b) => serde_json::Value::Bool(*b),
        Json::Number(n) => serde_json::from_str(n).map_or(
            serde_json::Value::Null,
            serde_json::Value::Number,
        ),
        Json::Str(s) => serde_json::Value::String(s.clone()),
        Json::Array(a) => serde_json::Value::Array(a.iter().map(to_value).collect()),
        Json::Object(m) => serde_json::Value::Object(
            m.iter().map(|e| (e.key.clone(), to_value(&e.value))).collect(),
        ),
    }
}

/// Calls `serde_json::from_str` for a `serde_json::Value` and hands the value
/// out as a [`Json`]. The contract claims that the outcome is a function of
/// the text alone, and gives it the name [`json_parsed`].
#[verifier::external_body]
pub(crate) fn parse(text: &str) -> (r: Option<Json>)
    ensures
        option_view(r) == json_parsed(text@),
{
    serde_json::from_str::<serde_json::Value>(text).ok().map(from_value)
}

/// Calls `to_string` of `serde_json::Value`, which writes compact JSON. The
/// contract claims that the text is a function of the value alone, and gives
/// it the name [`json_rendered`].
#[verifier::external_body]
pub(crate) fn render(value: &Json) -> (r: String)
    ensures
        r@ == json_rendered(value@),
{
    to_value(value).to_string()
}

} // verus!
