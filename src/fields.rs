use vstd::prelude::*;
use crate::json::{
    field_of, json_as_array, json_as_bool, json_as_i64, json_as_str, json_get, json_is_null, json_of,
    JsonModel,
};

verus! {

/// The string under `key`.
pub open spec fn str_at(m: JsonModel, key: Seq<char>) -> Option<Seq<char>> {
    match field_of(m, key) {
        Some(JsonModel::Str(s)) => Some(s),
        _ => None,
    }
}

/// The 32-bit integer under `key`.
pub open spec fn i32_at(m: JsonModel, key: Seq<char>) -> Option<i32> {
    match field_of(m, key) {
        Some(JsonModel::Int(n)) => if i32::MIN <= n <= i32::MAX {
            Some(n as i32)
        } else {
            None
        },
        _ => None,
    }
}

/// The boolean under `key`, or `d` where the key is absent.
pub open spec fn bool_or(m: JsonModel, key: Seq<char>, d: bool) -> Option<bool> {
    match field_of(m, key) {
        None => Some(d),
        Some(JsonModel::Bool(b)) => Some(b),
        _ => None,
    }
}

/// The string under `key`, or `d` where the key is absent.
pub open spec fn str_or(m: JsonModel, key: Seq<char>, d: Seq<char>) -> Option<Seq<char>> {
    match field_of(m, key) {
        None => Some(d),
        Some(JsonModel::Str(s)) => Some(s),
        _ => None,
    }
}

/// An optional string under `key`: absent and `null` both read as `None`.
pub open spec fn opt_str_at(m: JsonModel, key: Seq<char>) -> Option<Option<Seq<char>>> {
    match field_of(m, key) {
        None => Some(None),
        Some(JsonModel::Null) => Some(None),
        Some(JsonModel::Str(s)) => Some(Some(s)),
        _ => None,
    }
}

pub open spec fn all_strs(items: Seq<JsonModel>) -> bool {
    forall|i: int| 0 <= i < items.len() ==> #[trigger] items[i] is Str
}

pub open spec fn strs_of(items: Seq<JsonModel>) -> Seq<Seq<char>> {
    items.map_values(|x: JsonModel| x->Str_0)
}

/// An array of strings under `key`.
pub open spec fn strs_at(m: JsonModel, key: Seq<char>) -> Option<Seq<Seq<char>>> {
    match field_of(m, key) {
        Some(JsonModel::Array(items)) => if all_strs(items) {
            Some(strs_of(items))
        } else {
            None
        },
        _ => None,
    }
}

/// An optional array of strings under `key`.
pub open spec fn opt_strs_at(m: JsonModel, key: Seq<char>) -> Option<Option<Seq<Seq<char>>>> {
    match field_of(m, key) {
        None => Some(None),
        Some(JsonModel::Null) => Some(None),
        _ => match strs_at(m, key) {
            Some(v) => Some(Some(v)),
            None => None,
        },
    }
}

pub open spec fn opt_view(o: Option<String>) -> Option<Seq<char>> {
    match o {
        Some(s) => Some(s@),
        None => None,
    }
}

pub open spec fn strings_view(v: Seq<String>) -> Seq<Seq<char>> {
    v.map_values(|s: String| s@)
}

pub open spec fn opt_strings_view(o: Option<Vec<String>>) -> Option<Seq<Seq<char>>> {
    match o {
        Some(v) => Some(strings_view(v@)),
        None => None,
    }
}

pub(crate) fn get_str(v: &serde_json::Value, key: &str) -> (r: Option<String>)
    ensures
        opt_view(r) == str_at(json_of(*v), key@),
{
    match json_get(v, key) {
        Some(x) => json_as_str(&x),
        None => None,
    }
}

pub(crate) fn get_i32(v: &serde_json::Value, key: &str) -> (r: Option<i32>)
    ensures
        r == i32_at(json_of(*v), key@),
{
    match json_get(v, key) {
        Some(x) => match json_as_i64(&x) {
            Some(n) => if i32::MIN as i64 <= n && n <= i32::MAX as i64 {
                Some(n as i32)
            } else {
                None
            },
            None => None,
        },
        None => None,
    }
}

pub(crate) fn get_bool_or(v: &serde_json::Value, key: &str, d: bool) -> (r: Option<bool>)
    ensures
        r == bool_or(json_of(*v), key@, d),
{
    match json_get(v, key) {
        Some(x) => json_as_bool(&x),
        None => Some(d),
    }
}

pub(crate) fn get_str_or(v: &serde_json::Value, key: &str, d: String) -> (r: Option<String>)
    ensures
        opt_view(r) == str_or(json_of(*v), key@, d@),
{
    match json_get(v, key) {
        Some(x) => json_as_str(&x),
        None => Some(d),
    }
}

pub(crate) fn get_opt_str(v: &serde_json::Value, key: &str) -> (r: Option<Option<String>>)
    ensures
        match opt_str_at(json_of(*v), key@) {
            Some(o) => r is Some && opt_view(r->Some_0) == o,
            None => r is None,
        },
{
    match json_get(v, key) {
        Some(x) => if json_is_null(&x) {
            Some(None)
        } else {
            match json_as_str(&x) {
                Some(s) => Some(Some(s)),
                None => None,
            }
        },
        None => Some(None),
    }
}

pub(crate) fn strs_from_values(items: &Vec<serde_json::Value>) -> (r: Option<Vec<String>>)
    ensures
        match r {
            Some(out) => all_strs(items@.map_values(|x: serde_json::Value| json_of(x)))
                && strings_view(out@) == strs_of(items@.map_values(|x: serde_json::Value| json_of(x))),
            None => !all_strs(items@.map_values(|x: serde_json::Value| json_of(x))),
        },
{
    let ghost models = items@.map_values(|x: serde_json::Value| json_of(x));
    let mut out: Vec<String> = Vec::new();
    let mut i: usize = 0;
    while i < items.len()
        invariant
            i <= items@.len(),
            models == items@.map_values(|x: serde_json::Value| json_of(x)),
            out@.len() == i,
            forall|j: int| 0 <= j < i ==> #[trigger] models[j] is Str && out@[j]@ == models[j]->Str_0,
        decreases items@.len() - i,
    {
        match json_as_str(&items[i]) {
            Some(s) => out.push(s),
            None => {
                assert(!(models[i as int] is Str));
                return None;
            },
        }
        i = i + 1;
    }
    assert(strings_view(out@) =~= strs_of(models));
    Some(out)
}

pub(crate) fn get_strs(v: &serde_json::Value, key: &str) -> (r: Option<Vec<String>>)
    ensures
        match strs_at(json_of(*v), key@) {
            Some(s) => r is Some && strings_view(r->Some_0@) == s,
            None => r is None,
        },
{
    match json_get(v, key) {
        Some(x) => match json_as_array(&x) {
            Some(items) => {
                proof {
                    if let JsonModel::Array(ms) = json_of(x) {
                        assert(items@.map_values(|y: serde_json::Value| json_of(y)) =~= ms);
                    }
                }
                strs_from_values(&items)
            },
            None => None,
        },
        None => None,
    }
}

pub(crate) fn get_opt_strs(v: &serde_json::Value, key: &str) -> (r: Option<Option<Vec<String>>>)
    ensures
        match opt_strs_at(json_of(*v), key@) {
            Some(o) => r is Some && opt_strings_view(r->Some_0) == o,
            None => r is None,
        },
{
    match json_get(v, key) {
        Some(x) => if json_is_null(&x) {
            Some(None)
        } else {
            match get_strs(v, key) {
                Some(s) => Some(Some(s)),
                None => None,
            }
        },
        None => Some(None),
    }
}

} // verus!
