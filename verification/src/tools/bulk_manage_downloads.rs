//! Bulk actions across many downloads at once, with per-item outcomes
//! joined into one success/failure report.
use vstd::prelude::*;
use vstd::string::*;

use crate::error::ToolError;
use crate::json::{jv_get, JsonV, JsonValue};
use crate::tools::{kv, prop_enum, prop_string_array, schema_object, schema_shape, str_arr};

verus! {

pub struct BulkManageDownloadsTool;

/// The arguments a `bulk_manage_downloads` call carries.
#[derive(Debug)]
pub struct BulkManageDownloadsArgs {
    /// Action to perform: pause, resume, remove, forcePause, forceRemove.
    pub action: String,
    /// The GIDs to perform the action on.
    pub gids: Vec<String>,
}

impl BulkManageDownloadsTool {
    pub fn name(&self) -> (r: String)
        ensures
            r@ == "bulk_manage_downloads"@,
    {
        String::from_str("bulk_manage_downloads")
    }

    pub fn description(&self) -> (r: String)
        ensures
            r@ == "Perform bulk actions on multiple aria2 downloads: pause, resume, remove, force-pause, force-remove"@,
    {
        String::from_str("Perform bulk actions on multiple aria2 downloads: pause, resume, remove, force-pause, force-remove")
    }

    pub fn schema(&self) -> (r: JsonValue)
        ensures
            schema_shape(r@),
            crate::json::jv_get(r@, "properties"@) matches Some(JsonV::Obj(ps))
                && ps.len() == 2 && ps[0].0 == "action"@ && ps[1].0 == "gids"@,
    {
        let actions = vec!["pause", "resume", "remove", "forcePause", "forceRemove"];
        let mut props: Vec<(String, JsonValue)> = Vec::new();
        props.push(kv("action", prop_enum("Action to perform", &actions)));
        props.push(kv("gids", prop_string_array("List of GIDs of the downloads")));
        let required = vec!["action", "gids"];
        let ghost pv = props@;
        let r = schema_object(props, str_arr(&required));
        proof {
            crate::json::lemma_json_view_entries(pv);
        }
        r
    }

    /// Parses a call's arguments: the action word and the list of task
    /// identifiers. The action is checked per task at dispatch, so an
    /// unknown word parses and every task then fails.
    pub fn parse(&self, args: &JsonValue) -> (r: Result<BulkManageDownloadsArgs, ToolError>)
        ensures
            match crate::tools::str_field(args@, "action"@) {
                None => r matches Err(e) && e is MissingArgument,
                Some(a) => match jv_get(args@, "gids"@) {
                    Some(g) => {
                        if g matches JsonV::Arr(items) && crate::tools::string_items(items)
                            is Some {
                            r matches Ok(b) && b.action@ == a && Some(
                                crate::tools::strings_view(b.gids@),
                            ) == crate::tools::string_items(g->Arr_0)
                        } else {
                            r matches Err(e) && e is MissingArgument
                        }
                    },
                    None => r matches Err(e) && e is MissingArgument,
                },
            },
    {
        let action = match crate::tools::str_field_of(args, "action") {
            Some(a) => a,
            None => {
                return Err(ToolError::MissingArgument(String::from_str("Missing 'action'")));
            },
        };
        let gids_val = match args.get("gids") {
            Some(v) => v,
            None => {
                return Err(ToolError::MissingArgument(String::from_str("Missing 'gids'")));
            },
        };
        let gids = match crate::tools::collect_strings(gids_val) {
            Some(g) => g,
            None => {
                return Err(ToolError::MissingArgument(String::from_str("Missing 'gids'")));
            },
        };
        Ok(BulkManageDownloadsArgs { action: action.to_owned(), gids })
    }
}

/// The single-task command a bulk action runs on one identifier: the
/// same action words as single-download management, minus adding and
/// repositioning.
pub fn command_for(action: &str, gid: String) -> (r: Result<
    crate::tools::manage_downloads::DownloadCommand,
    ToolError,
>)
    ensures
        ({
            let a = action@;
            if a == "pause"@ {
                r matches Ok(crate::tools::manage_downloads::DownloadCommand::Pause { gid: g })
                    && g@ == gid@
            } else if a == "resume"@ {
                r matches Ok(crate::tools::manage_downloads::DownloadCommand::Resume { gid: g })
                    && g@ == gid@
            } else if a == "remove"@ {
                r matches Ok(crate::tools::manage_downloads::DownloadCommand::Remove { gid: g })
                    && g@ == gid@
            } else if a == "forcePause"@ {
                r matches Ok(
                    crate::tools::manage_downloads::DownloadCommand::ForcePause { gid: g },
                ) && g@ == gid@
            } else if a == "forceRemove"@ {
                r matches Ok(
                    crate::tools::manage_downloads::DownloadCommand::ForceRemove { gid: g },
                ) && g@ == gid@
            } else {
                r matches Err(e) && (e matches ToolError::InvalidAction(x) && x@ == a)
            }
        }),
{
    if crate::strutil::str_eq(action, "pause") {
        Ok(crate::tools::manage_downloads::DownloadCommand::Pause { gid })
    } else if crate::strutil::str_eq(action, "resume") {
        Ok(crate::tools::manage_downloads::DownloadCommand::Resume { gid })
    } else if crate::strutil::str_eq(action, "remove") {
        Ok(crate::tools::manage_downloads::DownloadCommand::Remove { gid })
    } else if crate::strutil::str_eq(action, "forcePause") {
        Ok(crate::tools::manage_downloads::DownloadCommand::ForcePause { gid })
    } else if crate::strutil::str_eq(action, "forceRemove") {
        Ok(crate::tools::manage_downloads::DownloadCommand::ForceRemove { gid })
    } else {
        Err(ToolError::InvalidAction(action.to_owned()))
    }
}

/// The row one task's outcome adds to the report.
pub open spec fn bulk_row(gid: Seq<char>, err: Option<Seq<char>>) -> JsonV {
    match err {
        None => JsonV::Obj(
            seq![("gid"@, JsonV::Str(gid)), ("status"@, JsonV::Str("success"@))],
        ),
        Some(m) => JsonV::Obj(
            seq![
                ("gid"@, JsonV::Str(gid)),
                ("status"@, JsonV::Str("error"@)),
                ("message"@, JsonV::Str(m)),
            ],
        ),
    }
}

/// How many of the outcomes failed.
pub open spec fn failure_count(outcomes: Seq<(String, Option<String>)>) -> nat
    decreases outcomes.len(),
{
    if outcomes.len() == 0 {
        0
    } else {
        failure_count(outcomes.drop_last()) + if outcomes.last().1 is Some {
            1nat
        } else {
            0nat
        }
    }
}

/// Joins per-task outcomes into the bulk report: the success and
/// failure counts and one row per task, in order; a task's entry is
/// `None` on success and carries the error message otherwise.
pub fn summarize(outcomes: &Vec<(String, Option<String>)>) -> (r: JsonValue)
    requires
        outcomes@.len() <= i64::MAX,
    ensures
        jv_get(r@, "success_count"@) == Some(
            JsonV::Int(outcomes@.len() - failure_count(outcomes@)),
        ),
        jv_get(r@, "failure_count"@) == Some(JsonV::Int(failure_count(outcomes@) as int)),
        jv_get(r@, "results"@) matches Some(JsonV::Arr(rows)) && rows.len() == outcomes@.len()
            && forall|i: int| 0 <= i < outcomes@.len() ==> rows[i] == bulk_row(
            outcomes@[i].0@,
            match outcomes@[i].1 {
                Some(m) => Some(m@),
                None => None,
            },
        ),
        failure_count(outcomes@) <= outcomes@.len(),
{
    let n = outcomes.len();
    let mut rows: Vec<JsonValue> = Vec::new();
    let mut failures: usize = 0;
    let mut i: usize = 0;
    proof {
        assert(outcomes@.take(0) =~= Seq::<(String, Option<String>)>::empty());
    }
    while i < n
        invariant
            n == outcomes@.len(),
            i <= n,
            rows@.len() == i,
            failures <= i,
            failures as nat == failure_count(outcomes@.take(i as int)),
            forall|j: int| 0 <= j < i ==> (#[trigger] rows@[j])@ == bulk_row(
                outcomes@[j].0@,
                match outcomes@[j].1 {
                    Some(m) => Some(m@),
                    None => None,
                },
            ),
        decreases n - i,
    {
        proof {
            assert(outcomes@.take(i + 1).drop_last() =~= outcomes@.take(i as int));
            assert(outcomes@.take(i + 1).last() == outcomes@[i as int]);
        }
        let mut cells: Vec<(String, JsonValue)> = Vec::new();
        cells.push((String::from_str("gid"), JsonValue::Str(outcomes[i].0.clone())));
        match &outcomes[i].1 {
            None => {
                cells.push((String::from_str("status"), JsonValue::of_str("success")));
            },
            Some(m) => {
                cells.push((String::from_str("status"), JsonValue::of_str("error")));
                cells.push((String::from_str("message"), JsonValue::Str(m.clone())));
                failures = failures + 1;
            },
        }
        let ghost cs = cells@;
        let row = JsonValue::Obj(cells);
        proof {
            crate::json::lemma_json_view_entries(cs);
            assert(crate::json::json_view_entries(cs) =~= bulk_row(
                outcomes@[i as int].0@,
                match outcomes@[i as int].1 {
                    Some(m) => Some(m@),
                    None => None,
                },
            )->Obj_0);
        }
        rows.push(row);
        i += 1;
    }
    proof {
        assert(outcomes@.take(n as int) =~= outcomes@);
    }
    let successes = n - failures;
    let ghost rows_seq = rows@;
    let mut entries: Vec<(String, JsonValue)> = Vec::new();
    entries.push((String::from_str("success_count"), JsonValue::Int(successes as i64)));
    entries.push((String::from_str("failure_count"), JsonValue::Int(failures as i64)));
    entries.push((String::from_str("results"), JsonValue::Arr(rows)));
    let ghost es = entries@;
    let r = JsonValue::Obj(entries);
    proof {
        crate::json::lemma_json_view_seq(rows_seq);
        crate::json::lemma_json_view_entries(es);
        let ves = crate::json::json_view_entries(es);
        reveal_strlit("success_count");
        reveal_strlit("failure_count");
        reveal_strlit("results");
        assert(ves[0].0 == "success_count"@ && ves[1].0 == "failure_count"@ && ves[2].0
            == "results"@);
        assert("success_count"@[0] == 's' && "failure_count"@[0] == 'f');
        assert("success_count"@ != "failure_count"@);
        assert("success_count"@ != "results"@);
        assert("failure_count"@ != "results"@);
        crate::json::lemma_obj_get_at(ves, 0);
        crate::json::lemma_obj_get_at(ves, 1);
        crate::json::lemma_obj_get_at(ves, 2);
        assert(crate::json::json_view_seq(rows_seq) =~= Seq::new(
            outcomes@.len(),
            |j: int| bulk_row(
                outcomes@[j].0@,
                match outcomes@[j].1 {
                    Some(m) => Some(m@),
                    None => None,
                },
            ),
        ));
    }
    r
}

} // verus!
