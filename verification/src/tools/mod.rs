//! The built-in tools: one module per tool, each with its name,
//! description and input schema, and the verified argument parsing and
//! call planning that its invocation runs on.
use vstd::prelude::*;
use vstd::string::*;

use crate::json::{json_view, json_view_seq, jv_get, lemma_json_view_seq, JsonV, JsonValue};

pub mod bulk_manage_downloads;
pub mod check_health;
pub mod configure_aria2;
pub mod inspect_download;
pub mod manage_all_instances;
pub mod manage_downloads;
pub mod manage_torrent;
pub mod monitor_queue;
pub mod organize_completed;
pub mod registry;
pub mod schedule_limits;
pub mod search_downloads;

verus! {

/// One schema object entry under its key.
pub fn kv(key: &str, v: JsonValue) -> (r: (String, JsonValue))
    ensures
        r.0@ == key@,
        r.1 == v,
{
    (String::from_str(key), v)
}

/// A `{"type": "string", "description": ...}` schema property.
pub fn prop_string(description: &str) -> (r: JsonValue)
    ensures
        r@ is Obj,
{
    let mut entries: Vec<(String, JsonValue)> = Vec::new();
    entries.push(kv("type", JsonValue::of_str("string")));
    entries.push(kv("description", JsonValue::of_str(description)));
    JsonValue::Obj(entries)
}

/// A `{"type": "integer", "description": ...}` schema property.
pub fn prop_integer(description: &str) -> (r: JsonValue)
    ensures
        r@ is Obj,
{
    let mut entries: Vec<(String, JsonValue)> = Vec::new();
    entries.push(kv("type", JsonValue::of_str("integer")));
    entries.push(kv("description", JsonValue::of_str(description)));
    JsonValue::Obj(entries)
}

/// A string-typed schema property constrained to the given variants.
pub fn prop_enum(description: &str, variants: &Vec<&str>) -> (r: JsonValue)
    ensures
        r@ is Obj,
{
    let mut entries: Vec<(String, JsonValue)> = Vec::new();
    entries.push(kv("type", JsonValue::of_str("string")));
    entries.push(kv("enum", str_arr(variants)));
    entries.push(kv("description", JsonValue::of_str(description)));
    JsonValue::Obj(entries)
}

/// A `{"type": "array", "items": {"type": "string"}, ...}` property.
pub fn prop_string_array(description: &str) -> (r: JsonValue)
    ensures
        r@ is Obj,
{
    let mut items: Vec<(String, JsonValue)> = Vec::new();
    items.push(kv("type", JsonValue::of_str("string")));
    let mut entries: Vec<(String, JsonValue)> = Vec::new();
    entries.push(kv("type", JsonValue::of_str("array")));
    entries.push(kv("items", JsonValue::Obj(items)));
    entries.push(kv("description", JsonValue::of_str(description)));
    JsonValue::Obj(entries)
}

/// A `{"type": "object", "description": ...}` schema property.
pub fn prop_object(description: &str) -> (r: JsonValue)
    ensures
        r@ is Obj,
{
    let mut entries: Vec<(String, JsonValue)> = Vec::new();
    entries.push(kv("type", JsonValue::of_str("object")));
    entries.push(kv("description", JsonValue::of_str(description)));
    JsonValue::Obj(entries)
}

/// An array value of string literals, in their given order.
pub fn str_arr(items: &Vec<&str>) -> (r: JsonValue)
    ensures
        r@ matches JsonV::Arr(vs) && vs.len() == items@.len() && forall|j: int|
            0 <= j < items@.len() ==> vs[j] == JsonV::Str(#[trigger] items@[j]@),
{
    let mut out: Vec<JsonValue> = Vec::new();
    let n = items.len();
    let mut i: usize = 0;
    while i < n
        invariant
            n == items@.len(),
            i <= n,
            out@.len() == i,
            forall|j: int| 0 <= j < i ==> (#[trigger] out@[j])@ == JsonV::Str(items@[j]@),
        decreases n - i,
    {
        out.push(JsonValue::of_str(items[i]));
        i += 1;
    }
    let ghost os = out@;
    let r = JsonValue::Arr(out);
    proof {
        lemma_json_view_seq(os);
    }
    r
}

/// The string content of `key` in `args`, when it is present as a string.
pub open spec fn str_field(args: JsonV, key: Seq<char>) -> Option<Seq<char>> {
    match jv_get(args, key) {
        Some(JsonV::Str(s)) => Some(s),
        _ => None,
    }
}

/// The integer content of `key` in `args`, when it is present as an integer.
pub open spec fn int_field(args: JsonV, key: Seq<char>) -> Option<int> {
    match jv_get(args, key) {
        Some(JsonV::Int(n)) => Some(n),
        _ => None,
    }
}

/// The character sequences of a string list.
pub open spec fn strings_view(s: Seq<String>) -> Seq<Seq<char>> {
    Seq::new(s.len(), |i: int| s[i]@)
}

/// The contents of a list of values when every element is a string.
pub open spec fn string_items(items: Seq<JsonV>) -> Option<Seq<Seq<char>>> {
    if forall|i: int| 0 <= i < items.len() ==> (#[trigger] items[i]) is Str {
        Some(Seq::new(items.len(), |i: int| items[i]->Str_0))
    } else {
        None
    }
}

/// Collects the strings of an array value; `None` when the value is not
/// an array of strings.
#[verifier::loop_isolation(false)]
pub fn collect_strings(v: &JsonValue) -> (r: Option<Vec<String>>)
    ensures
        match r {
            Some(out) => v@ matches JsonV::Arr(items) && string_items(items) == Some(
                strings_view(out@),
            ),
            None => !(v@ matches JsonV::Arr(items) && string_items(items) is Some),
        },
{
    match v {
        JsonValue::Arr(items) => {
            proof {
                lemma_json_view_seq(items@);
            }
            let n = items.len();
            let mut out: Vec<String> = Vec::new();
            let mut i: usize = 0;
            while i < n
                invariant
                    n == items@.len(),
                    i <= n,
                    out@.len() == i,
                    forall|j: int| 0 <= j < n ==> json_view_seq(items@)[j] == json_view(
                        items@[j],
                    ),
                    json_view_seq(items@).len() == n,
                    forall|j: int| 0 <= j < i ==> json_view_seq(items@)[j] is Str,
                    forall|j: int| 0 <= j < i ==> out@[j]@ == json_view_seq(items@)[j]->Str_0,
                decreases n - i,
            {
                match &items[i] {
                    JsonValue::Str(s) => {
                        out.push(s.clone());
                    },
                    _ => {
                        assert(!(json_view_seq(items@)[i as int] is Str));
                        return None;
                    },
                }
                i += 1;
            }
            proof {
                assert(string_items(json_view_seq(items@)) == Some(strings_view(out@))) by {
                    assert(forall|j: int| 0 <= j < n ==> (#[trigger] json_view_seq(items@)[j])
                        is Str);
                    assert(Seq::new(json_view_seq(items@).len(), |j: int| json_view_seq(
                        items@,
                    )[j]->Str_0) =~= strings_view(out@));
                }
            }
            Some(out)
        },
        _ => None,
    }
}

/// The string content of `key` in `args`, handed out as a slice.
pub fn str_field_of<'a>(args: &'a JsonValue, key: &str) -> (r: Option<&'a str>)
    ensures
        match r {
            Some(s) => str_field(args@, key@) == Some(s@),
            None => str_field(args@, key@) is None,
        },
{
    match args.get(key) {
        Some(v) => v.as_str(),
        None => None,
    }
}

/// The integer content of `key` in `args`.
pub fn int_field_of(args: &JsonValue, key: &str) -> (r: Option<i64>)
    ensures
        match r {
            Some(n) => int_field(args@, key@) == Some(n as int),
            None => int_field(args@, key@) is None,
        },
{
    match args.get(key) {
        Some(v) => match v {
            JsonValue::Int(n) => Some(*n),
            _ => None,
        },
        None => None,
    }
}

/// True when a schema value is an object whose `type` is `"object"` and
/// whose `properties` field is itself an object.
pub open spec fn schema_shape(s: JsonV) -> bool {
    &&& s is Obj
    &&& crate::json::jv_get(s, "type"@) == Some(JsonV::Str("object"@))
    &&& (crate::json::jv_get(s, "properties"@) matches Some(p) && p is Obj)
}

/// Wraps a property list and a required list into a schema object.
pub fn schema_object(properties: Vec<(String, JsonValue)>, required: JsonValue) -> (r: JsonValue)
    ensures
        schema_shape(r@),
        crate::json::jv_get(r@, "properties"@) == Some(
            JsonV::Obj(crate::json::json_view_entries(properties@)),
        ),
        crate::json::jv_get(r@, "required"@) == Some(required@),
{
    let ghost pv = properties@;
    let ghost req_view = required@;
    let mut entries: Vec<(String, JsonValue)> = Vec::new();
    entries.push(kv("type", JsonValue::of_str("object")));
    entries.push(kv("properties", JsonValue::Obj(properties)));
    entries.push(kv("required", required));
    let ghost es = entries@;
    let r = JsonValue::Obj(entries);
    proof {
        reveal_strlit("type");
        reveal_strlit("properties");
        reveal_strlit("required");
        crate::json::lemma_json_view_entries(es);
        let ves = crate::json::json_view_entries(es);
        assert(ves[0].0 == "type"@);
        assert(ves[1].0 == "properties"@);
        assert(ves[2].0 == "required"@);
        assert("type"@ != "properties"@);
        assert("type"@ != "required"@);
        assert("properties"@ != "required"@);
        crate::json::lemma_obj_get_at(ves, 0);
        crate::json::lemma_obj_get_at(ves, 1);
        crate::json::lemma_obj_get_at(ves, 2);
        assert(crate::json::jv_get(r@, "type"@) == Some(JsonV::Str("object"@)));
        assert(crate::json::obj_get_entries(ves, "properties"@) == Some(ves[1].1));
        assert(crate::json::obj_get_entries(ves, "required"@) == Some(req_view));
    }
    r
}

/// Wraps a property list without a required list into a schema object.
pub fn schema_object_no_required(properties: Vec<(String, JsonValue)>) -> (r: JsonValue)
    ensures
        schema_shape(r@),
        crate::json::jv_get(r@, "properties"@) == Some(
            JsonV::Obj(crate::json::json_view_entries(properties@)),
        ),
{
    let ghost pv = properties@;
    let mut entries: Vec<(String, JsonValue)> = Vec::new();
    entries.push(kv("type", JsonValue::of_str("object")));
    entries.push(kv("properties", JsonValue::Obj(properties)));
    let ghost es = entries@;
    let r = JsonValue::Obj(entries);
    proof {
        reveal_strlit("type");
        reveal_strlit("properties");
        crate::json::lemma_json_view_entries(es);
        let ves = crate::json::json_view_entries(es);
        assert(ves[0].0 == "type"@);
        assert(ves[1].0 == "properties"@);
        assert("type"@ != "properties"@);
        crate::json::lemma_obj_get_at(ves, 0);
        crate::json::lemma_obj_get_at(ves, 1);
        assert(crate::json::jv_get(r@, "type"@) == Some(JsonV::Str("object"@)));
        assert(crate::json::obj_get_entries(ves, "properties"@) == Some(ves[1].1));
    }
    r
}

} // verus!
