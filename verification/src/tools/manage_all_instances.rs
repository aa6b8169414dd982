//! Bulk operations across every configured instance at once: global
//! pause, resume, or purge, with one outcome reported per instance.
use vstd::prelude::*;
use vstd::string::*;

use crate::error::ToolError;
use crate::json::{jv_get, JsonV, JsonValue};
use crate::rpc::RpcRequest;
use crate::tools::{kv, prop_enum, schema_object, schema_shape, str_arr};

verus! {

pub struct ManageAllInstancesTool;

impl ManageAllInstancesTool {
    pub fn name(&self) -> (r: String)
        ensures
            r@ == "manage_all_instances"@,
    {
        String::from_str("manage_all_instances")
    }

    pub fn description(&self) -> (r: String)
        ensures
            r@ == "Perform bulk operations (pause, resume, stop) on all configured aria2 instances at once."@,
    {
        String::from_str("Perform bulk operations (pause, resume, stop) on all configured aria2 instances at once.")
    }

    pub fn schema(&self) -> (r: JsonValue)
        ensures
            schema_shape(r@),
            crate::json::jv_get(r@, "properties"@) matches Some(JsonV::Obj(ps))
                && ps.len() == 1 && ps[0].0 == "action"@,
    {
        let actions = vec!["pause", "resume", "purge"];
        let mut props: Vec<(String, JsonValue)> = Vec::new();
        props.push(kv(
            "action",
            prop_enum("The action to perform on all instances.", &actions),
        ));
        let required = vec!["action"];
        let ghost pv = props@;
        let r = schema_object(props, str_arr(&required));
        proof {
            crate::json::lemma_json_view_entries(pv);
        }
        r
    }

    /// Resolves the action word to the global operation it issues on
    /// every instance: pause all, resume all, or purge the results.
    pub fn plan(&self, args: &JsonValue) -> (r: Result<RpcRequest, ToolError>)
        ensures
            match crate::tools::str_field(args@, "action"@) {
                None => r matches Err(e) && e is MissingArgument,
                Some(a) => {
                    if a == "pause"@ {
                        r matches Ok(req) && req.method@ == "aria2.pauseAll"@
                            && crate::json::json_view_seq(req.params@) == Seq::<JsonV>::empty()
                    } else if a == "resume"@ {
                        r matches Ok(req) && req.method@ == "aria2.unpauseAll"@
                            && crate::json::json_view_seq(req.params@) == Seq::<JsonV>::empty()
                    } else if a == "purge"@ {
                        r matches Ok(req) && req.method@ == "aria2.purgeDownloadResult"@
                            && crate::json::json_view_seq(req.params@) == Seq::<JsonV>::empty()
                    } else {
                        r matches Err(e) && (e matches ToolError::InvalidAction(x) && x@ == a)
                    }
                },
            },
    {
        let action = match crate::tools::str_field_of(args, "action") {
            Some(a) => a,
            None => {
                return Err(ToolError::MissingArgument(String::from_str("Missing action")));
            },
        };
        let method = if crate::strutil::str_eq(action, "pause") {
            String::from_str("aria2.pauseAll")
        } else if crate::strutil::str_eq(action, "resume") {
            String::from_str("aria2.unpauseAll")
        } else if crate::strutil::str_eq(action, "purge") {
            String::from_str("aria2.purgeDownloadResult")
        } else {
            return Err(ToolError::InvalidAction(action.to_owned()));
        };
        let params: Vec<JsonValue> = Vec::new();
        let ghost ps = params@;
        let req = RpcRequest { method, params };
        proof {
            crate::json::lemma_json_view_seq(ps);
            assert(crate::json::json_view_seq(ps) =~= Seq::<JsonV>::empty());
        }
        Ok(req)
    }
}

/// The row one instance's outcome adds to the report: its name, a
/// coarse status, and the error message or a fixed success word.
pub open spec fn instance_row(name: Seq<char>, err: Option<Seq<char>>) -> JsonV {
    match err {
        None => JsonV::Obj(
            seq![
                ("instance"@, JsonV::Str(name)),
                ("status"@, JsonV::Str("ok"@)),
                ("message"@, JsonV::Str("Success"@)),
            ],
        ),
        Some(m) => JsonV::Obj(
            seq![
                ("instance"@, JsonV::Str(name)),
                ("status"@, JsonV::Str("error"@)),
                ("message"@, JsonV::Str(m)),
            ],
        ),
    }
}

/// Joins per-instance outcomes into the report: the action word and one
/// row per instance, in pool order.
pub fn summarize(action: &str, outcomes: &Vec<(String, Option<String>)>) -> (r: JsonValue)
    ensures
        jv_get(r@, "action"@) == Some(JsonV::Str(action@)),
        jv_get(r@, "results"@) matches Some(JsonV::Arr(rows)) && rows.len() == outcomes@.len()
            && forall|i: int| 0 <= i < outcomes@.len() ==> rows[i] == instance_row(
            outcomes@[i].0@,
            match outcomes@[i].1 {
                Some(m) => Some(m@),
                None => None,
            },
        ),
{
    let n = outcomes.len();
    let mut rows: Vec<JsonValue> = Vec::new();
    let mut i: usize = 0;
    while i < n
        invariant
            n == outcomes@.len(),
            i <= n,
            rows@.len() == i,
            forall|j: int| 0 <= j < i ==> (#[trigger] rows@[j])@ == instance_row(
                outcomes@[j].0@,
                match outcomes@[j].1 {
                    Some(m) => Some(m@),
                    None => None,
                },
            ),
        decreases n - i,
    {
        let mut cells: Vec<(String, JsonValue)> = Vec::new();
        cells.push((String::from_str("instance"), JsonValue::Str(outcomes[i].0.clone())));
        match &outcomes[i].1 {
            None => {
                cells.push((String::from_str("status"), JsonValue::of_str("ok")));
                cells.push((String::from_str("message"), JsonValue::of_str("Success")));
            },
            Some(m) => {
                cells.push((String::from_str("status"), JsonValue::of_str("error")));
                cells.push((String::from_str("message"), JsonValue::Str(m.clone())));
            },
        }
        let ghost cs = cells@;
        let row = JsonValue::Obj(cells);
        proof {
            crate::json::lemma_json_view_entries(cs);
            assert(crate::json::json_view_entries(cs) =~= instance_row(
                outcomes@[i as int].0@,
                match outcomes@[i as int].1 {
                    Some(m) => Some(m@),
                    None => None,
                },
            )->Obj_0);
        }
        rows.push(row);
        i += 1;
    }
    let ghost rows_seq = rows@;
    let mut entries: Vec<(String, JsonValue)> = Vec::new();
    entries.push((String::from_str("action"), JsonValue::of_str(action)));
    entries.push((String::from_str("results"), JsonValue::Arr(rows)));
    let ghost es = entries@;
    let r = JsonValue::Obj(entries);
    proof {
        crate::json::lemma_json_view_seq(rows_seq);
        crate::json::lemma_json_view_entries(es);
        let ves = crate::json::json_view_entries(es);
        reveal_strlit("action");
        reveal_strlit("results");
        assert(ves[0].0 == "action"@ && ves[1].0 == "results"@);
        assert("action"@ != "results"@);
        crate::json::lemma_obj_get_at(ves, 0);
        crate::json::lemma_obj_get_at(ves, 1);
        assert(crate::json::json_view_seq(rows_seq) =~= Seq::new(
            outcomes@.len(),
            |j: int| instance_row(
                outcomes@[j].0@,
                match outcomes@[j].1 {
                    Some(m) => Some(m@),
                    None => None,
                },
            ),
        ));
    }
    r
}

} // verus!
