//! How a JSON value becomes a typed value: the rule for each kind of field.

use crate::json::{Json, JsonView};
use crate::resources::{option_view, seq_view};
use vstd::prelude::*;

verus! {

/// A type whose values can be read from JSON.
pub trait Decode: View + Sized {
    /// What `json` decodes to; nothing where it does not have the shape of
    /// this type.
    spec fn decoded(json: JsonView) -> Option<Self::V>;

    /// Reads a value of this type from `json`.
    fn decode(json: &Json) -> (res: Option<Self>)
        ensures
            option_view(res) == Self::decoded(json@),
    ;
}

/// A string is read from a JSON string and from nothing else.
impl Decode for String {
    open spec fn decoded(json: JsonView) -> Option<Seq<char>> {
        match json {
            JsonView::Text(s) => Some(s),
            _ => None,
        }
    }

    fn decode(json: &Json) -> (res: Option<String>) {
        match json {
            Json::Text(s) => Some(s.clone()),
            _ => None,
        }
    }
}

/// A flag is read from `true` and `false` and from nothing else.
impl Decode for bool {
    open spec fn decoded(json: JsonView) -> Option<bool> {
        match json {
            JsonView::Bool(b) => Some(b),
            _ => None,
        }
    }

    fn decode(json: &Json) -> (res: Option<bool>) {
        match json {
            Json::Bool(b) => Some(*b),
            _ => None,
        }
    }
}

/// A count is read from a number that is a non-negative integer and fits.
impl Decode for usize {
    open spec fn decoded(json: JsonView) -> Option<usize> {
        match json {
            JsonView::Number(Some(n)) => if n <= usize::MAX {
                Some(n as usize)
            } else {
                None
            },
            _ => None,
        }
    }

    fn decode(json: &Json) -> (res: Option<usize>) {
        match json {
            Json::Number(Some(n)) => if *n <= usize::MAX as u64 {
                Some(*n as usize)
            } else {
                None
            },
            _ => None,
        }
    }
}

/// A member that has to be there: the object `json` has the key, and what
/// stands under it decodes.
pub open spec fn field<T: Decode>(json: JsonView, key: Seq<char>) -> Option<T::V> {
    match json.get(key) {
        Some(v) => T::decoded(v),
        None => None,
    }
}

/// A member that may be missing or `null`, which both give `None`; a value
/// that is there has to decode.
pub open spec fn optional_field<T: Decode>(json: JsonView, key: Seq<char>) -> Option<
    Option<T::V>,
> {
    match json.get(key) {
        None => Some(None),
        Some(JsonView::Null) => Some(None),
        Some(v) => match T::decoded(v) {
            Some(x) => Some(Some(x)),
            None => None,
        },
    }
}

/// All of `items` decoded, in their order; nothing as soon as one of them
/// does not decode.
pub open spec fn elements<T: Decode>(items: Seq<JsonView>) -> Option<Seq<T::V>> {
    if forall|i: int| 0 <= i < items.len() ==> (#[trigger] T::decoded(items[i])) is Some {
        Some(Seq::new(items.len(), |i: int| T::decoded(items[i]).unwrap()))
    } else {
        None
    }
}

/// An array whose items all decode.
pub open spec fn list<T: Decode>(json: JsonView) -> Option<Seq<T::V>> {
    match json {
        JsonView::Array(items) => elements::<T>(items),
        _ => None,
    }
}

/// A member that has to be there and be an array whose items all decode.
pub open spec fn list_field<T: Decode>(json: JsonView, key: Seq<char>) -> Option<Seq<T::V>> {
    match json.get(key) {
        Some(v) => list::<T>(v),
        None => None,
    }
}

/// A member that is an array whose items all decode, or is missing, which
/// gives the empty list. A `null` in its place does not decode.
pub open spec fn list_field_or_empty<T: Decode>(json: JsonView, key: Seq<char>) -> Option<
    Seq<T::V>,
> {
    match json.get(key) {
        Some(v) => list::<T>(v),
        None => Some(Seq::empty()),
    }
}

/// Reads the member `key`, which has to be there.
pub fn read_field<T: Decode>(json: &Json, key: &str) -> (res: Option<T>)
    ensures
        option_view(res) == field::<T>(json@, key@),
{
    match json.get(key) {
        Some(v) => T::decode(v),
        None => None,
    }
}

/// Reads the member `key`, which may be missing or `null`.
pub fn read_optional_field<T: Decode>(json: &Json, key: &str) -> (res: Option<Option<T>>)
    ensures
        match optional_field::<T>(json@, key@) {
            Some(v) => res matches Some(r) && option_view(r) == v,
            None => res is None,
        },
{
    match json.get(key) {
        None => Some(None),
        Some(Json::Null) => Some(None),
        Some(v) => match T::decode(v) {
            Some(x) => Some(Some(x)),
            None => None,
        },
    }
}

/// Reads an array, item by item.
pub fn read_list<T: Decode>(json: &Json) -> (res: Option<Vec<T>>)
    ensures
        match list::<T>(json@) {
            Some(v) => res matches Some(r) && seq_view(r@) == v,
            None => res is None,
        },
{
    match json {
        Json::Array(items) => {
            let ghost views = json@->Array_0;
            let mut out: Vec<T> = Vec::new();
            let mut i: usize = 0;
            while i < items.len()
                invariant
                    i <= items.len(),
                    json@ == JsonView::Array(views),
                    views.len() == items.len(),
                    forall|j: int| 0 <= j < views.len() ==> #[trigger] views[j] == items[j]@,
                    out.len() == i,
                    forall|j: int| 0 <= j < i ==> T::decoded(#[trigger] views[j]) == Some(out[j]@),
                decreases items.len() - i,
            {
                match T::decode(&items[i]) {
                    Some(v) => {
                        out.push(v);
                    },
                    None => {
                        assert(T::decoded(views[i as int]) is None);
                        return None;
                    },
                }
                i += 1;
            }
            assert(seq_view(out@) =~= elements::<T>(views).unwrap());
            Some(out)
        },
        _ => None,
    }
}

/// Reads the member `key`, which has to be there and be an array.
pub fn read_list_field<T: Decode>(json: &Json, key: &str) -> (res: Option<Vec<T>>)
    ensures
        match list_field::<T>(json@, key@) {
            Some(v) => res matches Some(r) && seq_view(r@) == v,
            None => res is None,
        },
{
    match json.get(key) {
        Some(v) => read_list::<T>(v),
        None => None,
    }
}

/// Reads the member `key`, an array; where it is missing the list is empty.
pub fn read_list_field_or_empty<T: Decode>(json: &Json, key: &str) -> (res: Option<Vec<T>>)
    ensures
        match list_field_or_empty::<T>(json@, key@) {
            Some(v) => res matches Some(r) && seq_view(r@) == v,
            None => res is None,
        },
{
    match json.get(key) {
        Some(v) => read_list::<T>(v),
        None => {
            let empty: Vec<T> = Vec::new();
            assert(seq_view(empty@) =~= Seq::<T::V>::empty());
            Some(empty)
        },
    }
}

} // verus!
