//! Queue monitoring: active, waiting and stopped listings and the global
//! statistics, each one remote call.
use vstd::prelude::*;
use vstd::string::*;

use crate::error::ToolError;
use crate::json::{jv_get, JsonV, JsonValue};
use crate::rpc::RpcRequest;
use crate::strutil::str_eq;
use crate::tools::{kv, prop_enum, prop_integer, prop_string_array, schema_object, schema_shape,
    str_arr};

verus! {

pub struct MonitorQueueTool;

/// The arguments a `monitor_queue` call carries.
#[derive(Debug)]
pub struct MonitorQueueArgs {
    pub action: String,
    pub offset: Option<i64>,
    pub num: Option<i64>,
    pub keys: Option<Vec<String>>,
}

impl MonitorQueueTool {
    pub fn name(&self) -> (r: String)
        ensures
            r@ == "monitor_queue"@,
    {
        String::from_str("monitor_queue")
    }

    pub fn description(&self) -> (r: String)
        ensures
            r@ == "Monitor the aria2 download queue: active, waiting, stopped downloads and global stats"@,
    {
        String::from_str("Monitor the aria2 download queue: active, waiting, stopped downloads and global stats")
    }

    pub fn schema(&self) -> (r: JsonValue)
        ensures
            schema_shape(r@),
            crate::json::jv_get(r@, "properties"@) matches Some(JsonV::Obj(ps))
                && ps.len() == 4 && ps[0].0 == "action"@ && ps[1].0 == "offset"@ && ps[2].0 == "num"@ && ps[3].0 == "keys"@,
    {
        let actions = vec!["active", "waiting", "stopped", "stats"];
        let mut props: Vec<(String, JsonValue)> = Vec::new();
        props.push(kv("action", prop_enum("Action to perform", &actions)));
        props.push(kv("offset", prop_integer("Offset (for waiting, stopped)")));
        props.push(kv("num", prop_integer("Number of tasks (for waiting, stopped)")));
        props.push(kv("keys", prop_string_array("Optional keys to return for each task")));
        let required = vec!["action"];
        let ghost pv = props@;
        let r = schema_object(props, str_arr(&required));
        proof {
            crate::json::lemma_json_view_entries(pv);
        }
        r
    }

    /// Parses a call's arguments: the action plus the paging and key
    /// selection it takes; offset defaults to 0 and the page size to
    /// 100.
    pub fn parse(&self, args: &JsonValue) -> (r: Result<MonitorQueueArgs, ToolError>)
        ensures
            match crate::tools::str_field(args@, "action"@) {
                None => r matches Err(e) && e is MissingArgument,
                Some(a) => r matches Ok(q) && {
                    &&& q.action@ == a
                    &&& paged_opt(q.offset) == crate::tools::int_field(args@, "offset"@)
                    &&& paged_opt(q.num) == crate::tools::int_field(args@, "num"@)
                    &&& match jv_get(args@, "keys"@) {
                        Some(v) => {
                            if v matches JsonV::Arr(items) && crate::tools::string_items(items)
                                is Some {
                                q.keys matches Some(ks) && Some(crate::tools::strings_view(ks@))
                                    == crate::tools::string_items(v->Arr_0)
                            } else {
                                q.keys is None
                            }
                        },
                        None => q.keys is None,
                    }
                },
            },
    {
        let action = match crate::tools::str_field_of(args, "action") {
            Some(a) => a,
            None => {
                return Err(
                    ToolError::MissingArgument(String::from_str("Missing 'action' argument")),
                );
            },
        };
        let keys = match args.get("keys") {
            Some(v) => crate::tools::collect_strings(v),
            None => None,
        };
        Ok(
            MonitorQueueArgs {
                action: action.to_owned(),
                offset: crate::tools::int_field_of(args, "offset"),
                num: crate::tools::int_field_of(args, "num"),
                keys,
            },
        )
    }
}

/// The key-list parameter a listing request carries, when keys were
/// asked for.
pub open spec fn keys_params(keys: Option<Vec<String>>) -> Seq<JsonV> {
    match keys {
        Some(ks) => seq![
            JsonV::Arr(
                Seq::new(ks@.len(), |i: int| JsonV::Str(crate::tools::strings_view(ks@)[i])),
            ),
        ],
        None => Seq::empty(),
    }
}

pub fn keys_param_vec(keys: &Option<Vec<String>>) -> (r: Option<JsonValue>)
    ensures
        match r {
            Some(v) => seq![v@] == keys_params(*keys),
            None => keys_params(*keys) == Seq::<JsonV>::empty() && keys is None,
        },
{
    match keys {
        Some(ks) => {
            let n = ks.len();
            let mut items: Vec<JsonValue> = Vec::new();
            let mut i: usize = 0;
            while i < n
                invariant
                    n == ks@.len(),
                    i <= n,
                    items@.len() == i,
                    forall|j: int| 0 <= j < i ==> (#[trigger] items@[j])@ == JsonV::Str(ks@[j]@),
                decreases n - i,
            {
                items.push(JsonValue::Str(ks[i].clone()));
                i += 1;
            }
            let ghost its = items@;
            let v = JsonValue::Arr(items);
            proof {
                crate::json::lemma_json_view_seq(its);
                assert(crate::json::json_view_seq(its) =~= Seq::new(
                    ks@.len(),
                    |j: int| JsonV::Str(crate::tools::strings_view(ks@)[j]),
                ));
            }
            Some(v)
        },
        None => None,
    }
}

/// The remote operation a queue query issues. `active` and the paged
/// `waiting`/`stopped` listings carry the optional key list last;
/// `stats` takes no argument; any other action is refused.
pub fn request_of(q: MonitorQueueArgs) -> (r: Result<RpcRequest, ToolError>)
    ensures
        ({
            let keys_part = keys_params(q.keys);
            if q.action@ == "active"@ {
                r matches Ok(req) && req.method@ == "aria2.tellActive"@
                    && crate::json::json_view_seq(req.params@) == keys_part
            } else if q.action@ == "waiting"@ {
                r matches Ok(req) && req.method@ == "aria2.tellWaiting"@
                    && crate::json::json_view_seq(req.params@) == seq![
                    JsonV::Int(paged(q.offset, 0)),
                    JsonV::Int(paged(q.num, 100)),
                ] + keys_part
            } else if q.action@ == "stopped"@ {
                r matches Ok(req) && req.method@ == "aria2.tellStopped"@
                    && crate::json::json_view_seq(req.params@) == seq![
                    JsonV::Int(paged(q.offset, 0)),
                    JsonV::Int(paged(q.num, 100)),
                ] + keys_part
            } else if q.action@ == "stats"@ {
                r matches Ok(req) && req.method@ == "aria2.getGlobalStat"@
                    && crate::json::json_view_seq(req.params@) == Seq::<JsonV>::empty()
            } else {
                r matches Err(e) && (e matches ToolError::InvalidAction(x) && x@ == q.action@)
            }
        }),
{
    let keys_vec = keys_param_vec(&q.keys);
    if str_eq(q.action.as_str(), "active") {
        let mut params: Vec<JsonValue> = Vec::new();
        if let Some(kl) = keys_vec {
            params.push(kl);
        }
        let ghost ps = params@;
        let req = RpcRequest { method: String::from_str("aria2.tellActive"), params };
        proof {
            crate::json::lemma_json_view_seq(ps);
            assert(crate::json::json_view_seq(ps) =~= keys_params(q.keys));
        }
        Ok(req)
    } else if str_eq(q.action.as_str(), "waiting") || str_eq(q.action.as_str(), "stopped") {
        let offset = match q.offset {
            Some(o) => o,
            None => 0,
        };
        let num = match q.num {
            Some(n) => n,
            None => 100,
        };
        let mut params: Vec<JsonValue> = Vec::new();
        params.push(JsonValue::Int(offset));
        params.push(JsonValue::Int(num));
        if let Some(kl) = keys_vec {
            params.push(kl);
        }
        let ghost ps = params@;
        let method = if str_eq(q.action.as_str(), "waiting") {
            String::from_str("aria2.tellWaiting")
        } else {
            String::from_str("aria2.tellStopped")
        };
        let req = RpcRequest { method, params };
        proof {
            crate::json::lemma_json_view_seq(ps);
            assert(crate::json::json_view_seq(ps) =~= seq![
                JsonV::Int(paged(q.offset, 0)),
                JsonV::Int(paged(q.num, 100)),
            ] + keys_params(q.keys));
        }
        Ok(req)
    } else if str_eq(q.action.as_str(), "stats") {
        let params: Vec<JsonValue> = Vec::new();
        let ghost ps = params@;
        let req = RpcRequest { method: String::from_str("aria2.getGlobalStat"), params };
        proof {
            crate::json::lemma_json_view_seq(ps);
            assert(crate::json::json_view_seq(ps) =~= Seq::<JsonV>::empty());
        }
        Ok(req)
    } else {
        Err(ToolError::InvalidAction(q.action.clone()))
    }
}

/// A paging option widened to mathematical integers.
pub open spec fn paged_opt(v: Option<i64>) -> Option<int> {
    match v {
        Some(n) => Some(n as int),
        None => None,
    }
}

/// A paging value with its default.
pub open spec fn paged(v: Option<i64>, default: int) -> int {
    match v {
        Some(n) => n as int,
        None => default,
    }
}

} // verus!
