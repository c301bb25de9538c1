//! JSON values as the decoders read them, and the parser that produces them.

use crate::error::ApiError;
use vstd::prelude::*;
use vstd::string::StringExecFns;

verus! {

/// A JSON value.
///
/// A number carries its value when it is a non-negative integer that fits in
/// 64 bits, and nothing otherwise: no record holds any other kind of number.
/// An object keeps its members as a list of pairs; where a key occurs more
/// than once, the first member with that key is the one that is read.
#[derive(Debug, PartialEq, Eq)]
pub enum Json {
    Null,
    Bool(bool),
    Number(Option<u64>),
    Text(String),
    Array(Vec<Json>),
    Object(Vec<(String, Json)>),
}

/// The mathematical value of a [`Json`].
pub enum JsonView {
    Null,
    Bool(bool),
    Number(Option<u64>),
    Text(Seq<char>),
    Array(Seq<JsonView>),
    Object(Seq<(Seq<char>, JsonView)>),
}

/// The value of `json`, with the values of everything below it.
pub open spec fn json_view(json: Json) -> JsonView
    decreases json,
{
    match json {
        Json::Null => JsonView::Null,
        Json::Bool(b) => JsonView::Bool(b),
        Json::Number(n) => JsonView::Number(n),
        Json::Text(s) => JsonView::Text(s@),
        Json::Array(items) => JsonView::Array(
            Seq::new(
                items@.len(),
                |i: int|
                    if 0 <= i < items@.len() {
                        json_view(items@[i])
                    } else {
                        JsonView::Null
                    },
            ),
        ),
        Json::Object(members) => JsonView::Object(
            Seq::new(
                members@.len(),
                |i: int|
                    if 0 <= i < members@.len() {
                        (members@[i].0@, json_view(members@[i].1))
                    } else {
                        (Seq::empty(), JsonView::Null)
                    },
            ),
        ),
    }
}

impl View for Json {
    type V = JsonView;

    open spec fn view(&self) -> JsonView {
        json_view(*self)
    }
}

/// The first member of `members` whose key is `key`, if there is one.
pub open spec fn member(members: Seq<(Seq<char>, JsonView)>, key: Seq<char>) -> Option<JsonView>
    decreases members.len(),
{
    if members.len() == 0 {
        None
    } else if members[0].0 == key {
        Some(members[0].1)
    } else {
        member(members.drop_first(), key)
    }
}

/// The members of `members` whose key is not `key`, in their order.
pub open spec fn members_without(members: Seq<(Seq<char>, JsonView)>, key: Seq<char>) -> Seq<
    (Seq<char>, JsonView),
>
    decreases members.len(),
{
    if members.len() == 0 {
        members
    } else if members[0].0 == key {
        members_without(members.drop_first(), key)
    } else {
        seq![members[0]] + members_without(members.drop_first(), key)
    }
}

impl JsonView {
    /// The member `key` of an object; nothing for a missing key and for a
    /// value that is not an object.
    pub open spec fn get(self, key: Seq<char>) -> Option<JsonView> {
        match self {
            JsonView::Object(members) => member(members, key),
            _ => None,
        }
    }

    /// This value with every member `key` taken away, where it is an object;
    /// any other value as it is.
    pub open spec fn without(self, key: Seq<char>) -> JsonView {
        match self {
            JsonView::Object(members) => JsonView::Object(members_without(members, key)),
            _ => self,
        }
    }
}

/// Taking a key away leaves nothing under that key and every other member
/// where it was.
proof fn lemma_member_without(
    members: Seq<(Seq<char>, JsonView)>,
    key: Seq<char>,
    other: Seq<char>,
)
    ensures
        member(members_without(members, key), other) == if other == key {
            None
        } else {
            member(members, other)
        },
    decreases members.len(),
{
    if members.len() > 0 {
        lemma_member_without(members.drop_first(), key, other);
        if members[0].0 != key {
            let rest = members_without(members.drop_first(), key);
            let kept = seq![members[0]] + rest;
            assert(kept[0] == members[0]);
            assert(kept.drop_first() =~= rest);
        }
    }
}

/// Taking a member away from a value leaves nothing under its key, and
/// changes nothing under any other key.
pub proof fn lemma_without(json: JsonView, key: Seq<char>)
    ensures
        json.without(key).get(key) is None,
        forall|other: Seq<char>|
            other != key ==> #[trigger] json.without(key).get(other) == json.get(other),
{
    if let JsonView::Object(members) = json {
        lemma_member_without(members, key, key);
        assert forall|other: Seq<char>| other != key implies #[trigger] json.without(key).get(
            other,
        ) == json.get(other) by {
            lemma_member_without(members, key, other);
        }
    }
}

/// Skipping members whose key differs from `key` does not change what is found.
proof fn lemma_member_skip(members: Seq<(Seq<char>, JsonView)>, key: Seq<char>, n: int)
    requires
        0 <= n <= members.len(),
        forall|i: int| 0 <= i < n ==> members[i].0 != key,
    ensures
        member(members, key) == member(members.subrange(n, members.len() as int), key),
    decreases n,
{
    if n == 0 {
        assert(members.subrange(0, members.len() as int) =~= members);
    } else {
        lemma_member_skip(members.drop_first(), key, n - 1);
        assert(members.drop_first().subrange(n - 1, members.len() - 1) =~= members.subrange(
            n,
            members.len() as int,
        ));
    }
}

impl Json {
    /// The member `key` of an object; nothing for a missing key and for a
    /// value that is not an object.
    pub fn get(&self, key: &str) -> (res: Option<&Json>)
        ensures
            match self@.get(key@) {
                Some(v) => res matches Some(found) && found@ == v,
                None => res is None,
            },
    {
        match self {
            Json::Object(members) => {
                let wanted = String::from_str(key);
                let ghost all = self@->Object_0;
                let mut i: usize = 0;
                while i < members.len()
                    invariant
                        i <= members.len(),
                        wanted@ == key@,
                        self@ == JsonView::Object(all),
                        all.len() == members.len(),
                        forall|j: int|
                            0 <= j < all.len() ==> #[trigger] all[j] == (
                                members[j].0@,
                                members[j].1@,
                            ),
                        forall|j: int| 0 <= j < i ==> all[j].0 != key@,
                    decreases members.len() - i,
                {
                    if members[i].0 == wanted {
                        proof {
                            lemma_member_skip(all, key@, i as int);
                            assert(all.subrange(i as int, all.len() as int)[0] == all[i as int]);
                        }
                        return Some(&members[i].1);
                    }
                    i += 1;
                }
                proof {
                    lemma_member_skip(all, key@, all.len() as int);
                }
                None
            },
            _ => None,
        }
    }
}

/// `serde_json::Value`, as the parser hands it over.
#[verifier::external_type_specification]
#[verifier::external_body]
pub struct ExValue(serde_json::Value);

/// What a JSON text denotes: nothing where the bytes are not one JSON value.
pub uninterp spec fn json_text(bytes: Seq<u8>) -> Option<JsonView>;

/// What a `serde_json::Value` holds.
pub uninterp spec fn value_json(value: serde_json::Value) -> JsonView;

/// How many arrays and objects may stand inside one another in a text that
/// is read.
pub const MAX_NESTING: usize = 128;

/// Whether `json` has at most `depth` arrays and objects inside one another.
pub open spec fn nested_within(json: JsonView, depth: nat) -> bool
    decreases depth,
{
    if depth == 0 {
        !(json is Array) && !(json is Object)
    } else {
        match json {
            JsonView::Array(items) => forall|i: int|
                0 <= i < items.len() ==> nested_within(#[trigger] items[i], (depth - 1) as nat),
            JsonView::Object(members) => forall|i: int|
                0 <= i < members.len() ==> nested_within(
                    (#[trigger] members[i]).1,
                    (depth - 1) as nat,
                ),
            _ => true,
        }
    }
}

/// An array is nested within a depth where the depth is not used up and its
/// items are nested within one less.
proof fn lemma_nested_array(items: Seq<JsonView>, depth: nat)
    ensures
        nested_within(JsonView::Array(items), depth) <==> depth > 0 && forall|i: int|
            0 <= i < items.len() ==> nested_within(#[trigger] items[i], (depth - 1) as nat),
{
    assert(JsonView::Array(items)->Array_0 == items);
}

/// An object is nested within a depth where the depth is not used up and its
/// members are nested within one less.
proof fn lemma_nested_object(members: Seq<(Seq<char>, JsonView)>, depth: nat)
    ensures
        nested_within(JsonView::Object(members), depth) <==> depth > 0 && forall|i: int|
            0 <= i < members.len() ==> nested_within(
                (#[trigger] members[i]).1,
                (depth - 1) as nat,
            ),
{
    assert(JsonView::Object(members)->Object_0 == members);
}

/// What is read from a body: the value that the text denotes, where it is
/// nested no deeper than [`MAX_NESTING`].
pub open spec fn document(bytes: Seq<u8>) -> Option<JsonView> {
    match json_text(bytes) {
        Some(json) => if nested_within(json, MAX_NESTING as nat) {
            Some(json)
        } else {
            None
        },
        None => None,
    }
}

/// `serde_json::from_slice`, read as a `serde_json::Value`. It fails exactly on
/// the texts that denote nothing, and otherwise gives the value that the text
/// denotes.
#[verifier::external_body]
fn value_from_slice(bytes: &[u8]) -> (res: Result<serde_json::Value, serde_json::Error>)
    ensures
        match res {
            Ok(value) => json_text(bytes@) == Some(value_json(value)),
            Err(_) => json_text(bytes@) is None,
        },
{
    serde_json::from_slice(bytes)
}

/// `serde::de::Error::custom` of `serde_json::Error`: an error that carries
/// `message`.
#[verifier::external_body]
pub(crate) fn schema_error(message: &str) -> serde_json::Error {
    <serde_json::Error as serde::de::Error>::custom(message)
}

/// The top of a `serde_json::Value`: its variant, with what stands below it
/// still as it came.
enum Opened {
    Null,
    Bool(bool),
    Number(Option<u64>),
    Text(String),
    Array(Vec<serde_json::Value>),
    Object(Vec<(String, serde_json::Value)>),
}

impl Opened {
    /// The value that was opened.
    spec fn json(self) -> JsonView {
        match self {
            Opened::Null => JsonView::Null,
            Opened::Bool(b) => JsonView::Bool(b),
            Opened::Number(n) => JsonView::Number(n),
            Opened::Text(s) => JsonView::Text(s@),
            Opened::Array(items) => JsonView::Array(
                Seq::new(items@.len(), |i: int| value_json(items@[i])),
            ),
            Opened::Object(members) => JsonView::Object(
                Seq::new(members@.len(), |i: int| (members@[i].0@, value_json(members@[i].1))),
            ),
        }
    }
}

/// Takes a `serde_json::Value` apart by its variant. A number is what
/// `serde_json::Number::as_u64` gives for it; the members of an object come
/// in the order in which `serde_json::Map` hands them out.
#[verifier::external_body]
fn open_value(value: serde_json::Value) -> (res: Opened)
    ensures
        res.json() == value_json(value),
{
    match value {
        serde_json::Value::Null => Opened::Null,
        serde_json::Value::Bool(b) => Opened::Bool(b),
        serde_json::Value::Number(n) => Opened::Number(n.as_u64()),
        serde_json::Value::String(s) => Opened::Text(s),
        serde_json::Value::Array(items) => Opened::Array(items),
        serde_json::Value::Object(members) => Opened::Object(members.into_iter().collect()),
    }
}

/// Turns a parsed value into a [`Json`], as far down as `depth` allows.
fn json_from_value(value: serde_json::Value, depth: usize) -> (res: Option<Json>)
    ensures
        res is Some <==> nested_within(value_json(value), depth as nat),
        res matches Some(json) ==> json@ == value_json(value),
    decreases depth,
{
    match open_value(value) {
        Opened::Null => Some(Json::Null),
        Opened::Bool(b) => Some(Json::Bool(b)),
        Opened::Number(n) => Some(Json::Number(n)),
        Opened::Text(s) => Some(Json::Text(s)),
        Opened::Array(items) => {
            if depth == 0 {
                return None;
            }
            let ghost all = items@;
            let ghost views = value_json(value)->Array_0;
            let mut out: Vec<Json> = Vec::new();
            for item in it: items
                invariant
                    depth > 0,
                    it.seq() == all,
                    value_json(value) == JsonView::Array(views),
                    views.len() == all.len(),
                    forall|j: int| 0 <= j < all.len() ==> #[trigger] views[j] == value_json(all[j]),
                    out.len() == it.index(),
                    forall|j: int|
                        0 <= j < out.len() ==> out[j]@ == #[trigger] views[j] && nested_within(
                            views[j],
                            (depth - 1) as nat,
                        ),
            {
                match json_from_value(item, depth - 1) {
                    Some(json) => {
                        out.push(json);
                    },
                    None => {
                        proof {
                            lemma_nested_array(views, depth as nat);
                            assert(!nested_within(views[it.index()], (depth - 1) as nat));
                        }
                        return None;
                    },
                }
            }
            let json = Json::Array(out);
            proof {
                lemma_nested_array(views, depth as nat);
                assert(json@->Array_0 =~= views);
            }
            Some(json)
        },
        Opened::Object(members) => {
            if depth == 0 {
                return None;
            }
            let ghost all = members@;
            let ghost views = value_json(value)->Object_0;
            let mut out: Vec<(String, Json)> = Vec::new();
            for member in it: members
                invariant
                    depth > 0,
                    it.seq() == all,
                    value_json(value) == JsonView::Object(views),
                    views.len() == all.len(),
                    forall|j: int|
                        0 <= j < all.len() ==> #[trigger] views[j] == (
                            all[j].0@,
                            value_json(all[j].1),
                        ),
                    out.len() == it.index(),
                    forall|j: int|
                        0 <= j < out.len() ==> out[j].0@ == (#[trigger] views[j]).0 && out[j].1@
                            == views[j].1 && nested_within(views[j].1, (depth - 1) as nat),
            {
                let (key, child) = member;
                match json_from_value(child, depth - 1) {
                    Some(json) => {
                        out.push((key, json));
                    },
                    None => {
                        proof {
                            lemma_nested_object(views, depth as nat);
                            assert(!nested_within(views[it.index()].1, (depth - 1) as nat));
                        }
                        return None;
                    },
                }
            }
            let json = Json::Object(out);
            proof {
                lemma_nested_object(views, depth as nat);
                assert(json@->Object_0 =~= views);
            }
            Some(json)
        },
    }
}

impl Json {
    /// Reads one JSON value from `bytes`. What is not JSON is a parse error,
    /// and so is a value nested deeper than [`MAX_NESTING`], on which the
    /// parser gives up before that. The parser keeps one member for each key
    /// of an object: the last one in the text.
    pub fn parse(bytes: &[u8]) -> (res: Result<Json, ApiError>)
        ensures
            match document(bytes@) {
                Some(v) => res matches Ok(json) && json@ == v,
                None => res matches Err(ApiError::ParseError(_)),
            },
    {
        match value_from_slice(bytes) {
            Ok(value) => match json_from_value(value, MAX_NESTING) {
                Some(json) => Ok(json),
                None => Err(ApiError::ParseError(schema_error("the value is nested too deeply"))),
            },
            Err(e) => Err(ApiError::ParseError(e)),
        }
    }
}

} // verus!
