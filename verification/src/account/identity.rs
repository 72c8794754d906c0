//! Who a token belongs to, read from the `users/me` response.

use vstd::prelude::*;
use crate::json::{JsonValue, member, text_of};

verus! {

/// The text of member `key` of `v`, when it is a string that is not empty.
pub open spec fn nonempty_text(v: JsonValue, key: Seq<char>) -> Option<Seq<char>> {
    match member(v, key) {
        Some(m) => match text_of(m) {
            Some(t) => if t.len() > 0 { Some(t) } else { None },
            None => None,
        },
        None => None,
    }
}

/// The first of `keys` whose member in `v` is a string that is not empty.
pub open spec fn first_text(v: JsonValue, keys: Seq<Seq<char>>) -> Option<Seq<char>>
    decreases keys.len(),
{
    if keys.len() == 0 {
        None
    } else {
        match nonempty_text(v, keys[0]) {
            Some(t) => Some(t),
            None => first_text(v, keys.drop_first()),
        }
    }
}

/// The members of the `data` object that name the owner, in order of preference.
pub open spec fn data_keys() -> Seq<Seq<char>> {
    seq!["username"@, "email"@, "id"@]
}

/// The top-level members that name the owner, in order of preference.
pub open spec fn top_keys() -> Seq<Seq<char>> {
    seq!["username"@, "user"@, "email"@, "id"@, "name"@]
}

/// The owner named by a `users/me` response: the first non-empty string of
/// `data.username`, `data.email`, `data.id` (when `data` is an object), else of
/// the top-level `username`, `user`, `email`, `id`, `name`; empty when the
/// response is not an object or names no one.
pub open spec fn identity_view(me: JsonValue) -> Seq<char> {
    if !(me is Object) {
        Seq::empty()
    } else {
        let from_data = match member(me, "data"@) {
            Some(d) => if d is Object { first_text(d, data_keys()) } else { None },
            None => None,
        };
        match from_data {
            Some(t) => t,
            None => match first_text(me, top_keys()) {
                Some(t) => t,
                None => Seq::empty(),
            },
        }
    }
}

fn nonempty_member(v: &JsonValue, key: &str) -> (r: Option<String>)
    ensures
        r.deep_view() == nonempty_text(*v, key@),
{
    match v.get(key) {
        Some(m) => match m.as_str() {
            Some(t) => if t.is_empty() { None } else { Some(String::from_str(t)) },
            None => None,
        },
        None => None,
    }
}

/// The owner named by a `users/me` response, or an empty string.
pub fn describe(me: &JsonValue) -> (r: String)
    ensures
        r@ == identity_view(*me),
{
    if !me.is_object() {
        return String::new();
    }
    proof {
        reveal_with_fuel(first_text, 6);
    }
    let from_data = match me.get("data") {
        Some(d) => if d.is_object() {
            match nonempty_member(d, "username") {
                Some(t) => Some(t),
                None => match nonempty_member(d, "email") {
                    Some(t) => Some(t),
                    None => nonempty_member(d, "id"),
                },
            }
        } else {
            None
        },
        None => None,
    };
    if let Some(t) = from_data {
        return t;
    }
    match nonempty_member(me, "username") {
        Some(t) => t,
        None => match nonempty_member(me, "user") {
            Some(t) => t,
            None => match nonempty_member(me, "email") {
                Some(t) => t,
                None => match nonempty_member(me, "id") {
                    Some(t) => t,
                    None => match nonempty_member(me, "name") {
                        Some(t) => t,
                        None => String::new(),
                    },
                },
            },
        },
    }
}

} // verus!
