//! Single-download management: add, pause, resume, remove (plain and
//! forced) and queue repositioning, one remote call per action.
use vstd::prelude::*;
use vstd::string::*;

use crate::error::ToolError;
use crate::json::{json_view, json_view_seq, jv_get, lemma_json_view_seq, JsonV, JsonValue};
use crate::rpc::RpcRequest;
use crate::strutil::str_eq;
use crate::tools::{kv, prop_enum, prop_integer, prop_object, prop_string, prop_string_array,
    schema_object, schema_shape, str_arr, str_field, string_items, strings_view};

verus! {

pub struct ManageDownloadsTool;

/// The arguments a `manage_downloads` call carries.
#[derive(Debug)]
pub struct ManageDownloadsArgs {
    pub action: String,
    pub gid: Option<String>,
    pub uris: Option<Vec<String>>,
    pub pos: Option<i64>,
    pub how: Option<String>,
    pub options: Option<JsonValue>,
}

/// One parsed and checked download-management command.
#[derive(Debug)]
pub enum DownloadCommand {
    Add { uris: Vec<String>, options: Option<JsonValue> },
    Pause { gid: String },
    Resume { gid: String },
    Remove { gid: String },
    ForcePause { gid: String },
    ForceRemove { gid: String },
    Move { gid: String, pos: i64, how: String },
}

impl ManageDownloadsTool {
    pub fn name(&self) -> (r: String)
        ensures
            r@ == "manage_downloads"@,
    {
        String::from_str("manage_downloads")
    }

    pub fn description(&self) -> (r: String)
        ensures
            r@ == "Monitor and manage aria2 downloads: add, pause, resume, remove, force-pause, force-remove, move"@,
    {
        String::from_str("Monitor and manage aria2 downloads: add, pause, resume, remove, force-pause, force-remove, move")
    }

    pub fn schema(&self) -> (r: JsonValue)
        ensures
            schema_shape(r@),
            crate::json::jv_get(r@, "properties"@) matches Some(JsonV::Obj(ps))
                && ps.len() == 6 && ps[0].0 == "action"@ && ps[1].0 == "gid"@ && ps[2].0 == "uris"@ && ps[3].0 == "pos"@ && ps[4].0 == "how"@ && ps[5].0 == "options"@,
    {
        let actions = vec!["add", "pause", "resume", "remove", "forcePause", "forceRemove",
            "move"];
        let hows = vec!["POS_SET", "POS_CUR", "POS_END"];
        let mut props: Vec<(String, JsonValue)> = Vec::new();
        props.push(kv("action", prop_enum("Action to perform", &actions)));
        props.push(kv("gid", prop_string("GID of the download")));
        props.push(kv("uris", prop_string_array("URIs to add (for action='add')")));
        props.push(kv("pos", prop_integer("New position (for action='move')")));
        props.push(kv("how", prop_enum("How to move (for action='move')", &hows)));
        props.push(kv(
            "options",
            prop_object("Options for the added download (for action='add')"),
        ));
        let required = vec!["action"];
        let ghost pv = props@;
        let r = schema_object(props, str_arr(&required));
        proof {
            crate::json::lemma_json_view_entries(pv);
        }
        r
    }

    /// Parses a call's arguments into a checked command: each action
    /// demands its fields and an unrecognized action is refused.
    pub fn parse(&self, args: &JsonValue) -> (r: Result<DownloadCommand, ToolError>)
        ensures
            match str_field(args@, "action"@) {
                None => r matches Err(e) && e is MissingArgument,
                Some(a) => {
                    if a == "add"@ {
                        match jv_get(args@, "uris"@) {
                            Some(u) => {
                                if u matches JsonV::Arr(items) && string_items(items) is Some {
                                    r matches Ok(DownloadCommand::Add { uris, options })
                                        && Some(strings_view(uris@)) == string_items(
                                        u->Arr_0,
                                    ) && match jv_get(args@, "options"@) {
                                        Some(o) => options matches Some(ov) && ov@ == o,
                                        None => options is None,
                                    }
                                } else {
                                    r matches Err(e) && e is MissingArgument
                                }
                            },
                            None => r matches Err(e) && e is MissingArgument,
                        }
                    } else if a == "pause"@ {
                        match str_field(args@, "gid"@) {
                            Some(g) => r matches Ok(DownloadCommand::Pause { gid }) && gid@ == g,
                            None => r matches Err(e) && e is MissingArgument,
                        }
                    } else if a == "resume"@ {
                        match str_field(args@, "gid"@) {
                            Some(g) => r matches Ok(DownloadCommand::Resume { gid }) && gid@ == g,
                            None => r matches Err(e) && e is MissingArgument,
                        }
                    } else if a == "remove"@ {
                        match str_field(args@, "gid"@) {
                            Some(g) => r matches Ok(DownloadCommand::Remove { gid }) && gid@ == g,
                            None => r matches Err(e) && e is MissingArgument,
                        }
                    } else if a == "forcePause"@ {
                        match str_field(args@, "gid"@) {
                            Some(g) => r matches Ok(DownloadCommand::ForcePause { gid }) && gid@
                                == g,
                            None => r matches Err(e) && e is MissingArgument,
                        }
                    } else if a == "forceRemove"@ {
                        match str_field(args@, "gid"@) {
                            Some(g) => r matches Ok(DownloadCommand::ForceRemove { gid }) && gid@
                                == g,
                            None => r matches Err(e) && e is MissingArgument,
                        }
                    } else if a == "move"@ {
                        match (
                            str_field(args@, "gid"@),
                            crate::tools::int_field(args@, "pos"@),
                            str_field(args@, "how"@),
                        ) {
                            (Some(g), Some(p), Some(h)) => r matches Ok(DownloadCommand::Move {
                                gid,
                                pos,
                                how,
                            }) && gid@ == g && pos as int == p && how@ == h,
                            _ => r matches Err(e) && e is MissingArgument,
                        }
                    } else {
                        r matches Err(e) && (e matches ToolError::InvalidAction(x) && x@ == a)
                    }
                },
            },
    {
        let action = match crate::tools::str_field_of(args, "action") {
            Some(a) => a,
            None => {
                return Err(
                    ToolError::MissingArgument(
                        String::from_str("Missing or invalid 'action' argument"),
                    ),
                );
            },
        };
        if str_eq(action, "add") {
            let uris_val = match args.get("uris") {
                Some(v) => v,
                None => {
                    return Err(
                        ToolError::MissingArgument(
                            String::from_str("'uris' is required for action 'add'"),
                        ),
                    );
                },
            };
            let uris = match crate::tools::collect_strings(uris_val) {
                Some(u) => u,
                None => {
                    return Err(
                        ToolError::MissingArgument(
                            String::from_str("'uris' is required for action 'add'"),
                        ),
                    );
                },
            };
            let options = match args.get("options") {
                Some(o) => Some(o.deep_copy()),
                None => None,
            };
            Ok(DownloadCommand::Add { uris, options })
        } else if str_eq(action, "pause") {
            match crate::tools::str_field_of(args, "gid") {
                Some(g) => Ok(DownloadCommand::Pause { gid: g.to_owned() }),
                None => Err(
                    ToolError::MissingArgument(
                        String::from_str("'gid' is required for action 'pause'"),
                    ),
                ),
            }
        } else if str_eq(action, "resume") {
            match crate::tools::str_field_of(args, "gid") {
                Some(g) => Ok(DownloadCommand::Resume { gid: g.to_owned() }),
                None => Err(
                    ToolError::MissingArgument(
                        String::from_str("'gid' is required for action 'resume'"),
                    ),
                ),
            }
        } else if str_eq(action, "remove") {
            match crate::tools::str_field_of(args, "gid") {
                Some(g) => Ok(DownloadCommand::Remove { gid: g.to_owned() }),
                None => Err(
                    ToolError::MissingArgument(
                        String::from_str("'gid' is required for action 'remove'"),
                    ),
                ),
            }
        } else if str_eq(action, "forcePause") {
            match crate::tools::str_field_of(args, "gid") {
                Some(g) => Ok(DownloadCommand::ForcePause { gid: g.to_owned() }),
                None => Err(
                    ToolError::MissingArgument(
                        String::from_str("'gid' is required for action 'forcePause'"),
                    ),
                ),
            }
        } else if str_eq(action, "forceRemove") {
            match crate::tools::str_field_of(args, "gid") {
                Some(g) => Ok(DownloadCommand::ForceRemove { gid: g.to_owned() }),
                None => Err(
                    ToolError::MissingArgument(
                        String::from_str("'gid' is required for action 'forceRemove'"),
                    ),
                ),
            }
        } else if str_eq(action, "move") {
            let gid = match crate::tools::str_field_of(args, "gid") {
                Some(g) => g,
                None => {
                    return Err(
                        ToolError::MissingArgument(
                            String::from_str("'gid' is required for action 'move'"),
                        ),
                    );
                },
            };
            let pos = match crate::tools::int_field_of(args, "pos") {
                Some(p) => p,
                None => {
                    return Err(
                        ToolError::MissingArgument(
                            String::from_str("'pos' is required for action 'move'"),
                        ),
                    );
                },
            };
            let how = match crate::tools::str_field_of(args, "how") {
                Some(h) => h,
                None => {
                    return Err(
                        ToolError::MissingArgument(
                            String::from_str("'how' is required for action 'move'"),
                        ),
                    );
                },
            };
            Ok(DownloadCommand::Move { gid: gid.to_owned(), pos, how: how.to_owned() })
        } else {
            Err(ToolError::InvalidAction(action.to_owned()))
        }
    }
}

/// The remote operation a command issues: the daemon's method name and
/// the positional arguments behind the optional secret.
pub fn request_of(cmd: &DownloadCommand) -> (r: RpcRequest)
    ensures
        match cmd {
            DownloadCommand::Add { uris, options } => {
                &&& r.method@ == "aria2.addUri"@
                &&& json_view_seq(r.params@) == seq![
                    JsonV::Arr(
                        Seq::new(uris@.len(), |i: int| JsonV::Str(strings_view(uris@)[i])),
                    ),
                ] + match options {
                    Some(o) => seq![o@],
                    None => Seq::<JsonV>::empty(),
                }
            },
            DownloadCommand::Pause { gid } => r.method@ == "aria2.pause"@ && json_view_seq(
                r.params@,
            ) == seq![JsonV::Str(gid@)],
            DownloadCommand::Resume { gid } => r.method@ == "aria2.unpause"@ && json_view_seq(
                r.params@,
            ) == seq![JsonV::Str(gid@)],
            DownloadCommand::Remove { gid } => r.method@ == "aria2.remove"@ && json_view_seq(
                r.params@,
            ) == seq![JsonV::Str(gid@)],
            DownloadCommand::ForcePause { gid } => r.method@ == "aria2.forcePause"@
                && json_view_seq(r.params@) == seq![JsonV::Str(gid@)],
            DownloadCommand::ForceRemove { gid } => r.method@ == "aria2.forceRemove"@
                && json_view_seq(r.params@) == seq![JsonV::Str(gid@)],
            DownloadCommand::Move { gid, pos, how } => r.method@ == "aria2.changePosition"@
                && json_view_seq(r.params@) == seq![
                JsonV::Str(gid@),
                JsonV::Int(*pos as int),
                JsonV::Str(how@),
            ],
        },
{
    match cmd {
        DownloadCommand::Add { uris, options } => {
            let n = uris.len();
            let mut items: Vec<JsonValue> = Vec::new();
            let mut i: usize = 0;
            while i < n
                invariant
                    n == uris@.len(),
                    i <= n,
                    items@.len() == i,
                    forall|j: int| 0 <= j < i ==> (#[trigger] items@[j])@ == JsonV::Str(
                        uris@[j]@,
                    ),
                decreases n - i,
            {
                items.push(JsonValue::Str(uris[i].clone()));
                i += 1;
            }
            let ghost its = items@;
            let mut params: Vec<JsonValue> = Vec::new();
            params.push(JsonValue::Arr(items));
            if let Some(o) = options {
                params.push(o.deep_copy());
            }
            let ghost ps = params@;
            let r = RpcRequest { method: String::from_str("aria2.addUri"), params };
            proof {
                lemma_json_view_seq(its);
                assert(json_view_seq(its) =~= Seq::new(
                    uris@.len(),
                    |j: int| JsonV::Str(strings_view(uris@)[j]),
                ));
                lemma_json_view_seq(ps);
                match options {
                    Some(o) => {
                        assert(json_view_seq(ps) =~= seq![
                            JsonV::Arr(
                                Seq::new(
                                    uris@.len(),
                                    |j: int| JsonV::Str(strings_view(uris@)[j]),
                                ),
                            ),
                        ] + seq![o@]);
                    },
                    None => {
                        assert(json_view_seq(ps) =~= seq![
                            JsonV::Arr(
                                Seq::new(
                                    uris@.len(),
                                    |j: int| JsonV::Str(strings_view(uris@)[j]),
                                ),
                            ),
                        ] + Seq::<JsonV>::empty());
                    },
                }
            }
            r
        },
        DownloadCommand::Pause { gid } => single_gid_request("aria2.pause", gid),
        DownloadCommand::Resume { gid } => single_gid_request("aria2.unpause", gid),
        DownloadCommand::Remove { gid } => single_gid_request("aria2.remove", gid),
        DownloadCommand::ForcePause { gid } => single_gid_request("aria2.forcePause", gid),
        DownloadCommand::ForceRemove { gid } => single_gid_request("aria2.forceRemove", gid),
        DownloadCommand::Move { gid, pos, how } => {
            let mut params: Vec<JsonValue> = Vec::new();
            params.push(JsonValue::Str(gid.clone()));
            params.push(JsonValue::Int(*pos));
            params.push(JsonValue::Str(how.clone()));
            let ghost ps = params@;
            let r = RpcRequest { method: String::from_str("aria2.changePosition"), params };
            proof {
                lemma_json_view_seq(ps);
                assert(json_view_seq(ps) =~= seq![
                    JsonV::Str(gid@),
                    JsonV::Int(*pos as int),
                    JsonV::Str(how@),
                ]);
            }
            r
        },
    }
}

/// One remote operation whose only argument is a task identifier.
pub fn single_gid_request(method: &str, gid: &String) -> (r: RpcRequest)
    ensures
        r.method@ == method@,
        json_view_seq(r.params@) == seq![JsonV::Str(gid@)],
{
    let mut params: Vec<JsonValue> = Vec::new();
    params.push(JsonValue::Str(gid.clone()));
    let ghost ps = params@;
    let r = RpcRequest { method: String::from_str(method), params };
    proof {
        lemma_json_view_seq(ps);
        assert(json_view_seq(ps) =~= seq![JsonV::Str(gid@)]);
    }
    r
}

/// The acknowledgement word a command reports on success, for the
/// actions that reply `{status, gid}`.
pub fn ack_status(cmd: &DownloadCommand) -> (r: Option<String>)
    ensures
        match cmd {
            DownloadCommand::Pause { .. } => r matches Some(s) && s@ == "paused"@,
            DownloadCommand::Resume { .. } => r matches Some(s) && s@ == "resumed"@,
            DownloadCommand::Remove { .. } => r matches Some(s) && s@ == "removed"@,
            DownloadCommand::ForcePause { .. } => r matches Some(s) && s@ == "force-paused"@,
            DownloadCommand::ForceRemove { .. } => r matches Some(s) && s@ == "force-removed"@,
            _ => r is None,
        },
{
    match cmd {
        DownloadCommand::Pause { .. } => Some(String::from_str("paused")),
        DownloadCommand::Resume { .. } => Some(String::from_str("resumed")),
        DownloadCommand::Remove { .. } => Some(String::from_str("removed")),
        DownloadCommand::ForcePause { .. } => Some(String::from_str("force-paused")),
        DownloadCommand::ForceRemove { .. } => Some(String::from_str("force-removed")),
        _ => None,
    }
}

/// The `{"gid": ...}` reply of a successful add.
pub fn gid_response(gid: String) -> (r: JsonValue)
    ensures
        r@ == JsonV::Obj(seq![("gid"@, JsonV::Str(gid@))]),
{
    let ghost g = gid@;
    let mut entries: Vec<(String, JsonValue)> = Vec::new();
    entries.push((String::from_str("gid"), JsonValue::Str(gid)));
    let ghost es = entries@;
    let r = JsonValue::Obj(entries);
    proof {
        crate::json::lemma_json_view_entries(es);
        assert(crate::json::json_view_entries(es) =~= seq![("gid"@, JsonV::Str(g))]);
    }
    r
}

/// The `{"status": ..., "gid": ...}` reply of an acknowledged action.
pub fn status_response(status: String, gid: String) -> (r: JsonValue)
    ensures
        r@ == JsonV::Obj(seq![("status"@, JsonV::Str(status@)), ("gid"@, JsonV::Str(gid@))]),
{
    let ghost s = status@;
    let ghost g = gid@;
    let mut entries: Vec<(String, JsonValue)> = Vec::new();
    entries.push((String::from_str("status"), JsonValue::Str(status)));
    entries.push((String::from_str("gid"), JsonValue::Str(gid)));
    let ghost es = entries@;
    let r = JsonValue::Obj(entries);
    proof {
        crate::json::lemma_json_view_entries(es);
        assert(crate::json::json_view_entries(es) =~= seq![
            ("status"@, JsonV::Str(s)),
            ("gid"@, JsonV::Str(g)),
        ]);
    }
    r
}

/// The `{"newPosition": ..., "gid": ...}` reply of a reposition.
pub fn move_response(pos: i64, gid: String) -> (r: JsonValue)
    ensures
        r@ == JsonV::Obj(
            seq![("newPosition"@, JsonV::Int(pos as int)), ("gid"@, JsonV::Str(gid@))],
        ),
{
    let ghost g = gid@;
    let mut entries: Vec<(String, JsonValue)> = Vec::new();
    entries.push((String::from_str("newPosition"), JsonValue::Int(pos)));
    entries.push((String::from_str("gid"), JsonValue::Str(gid)));
    let ghost es = entries@;
    let r = JsonValue::Obj(entries);
    proof {
        crate::json::lemma_json_view_entries(es);
        assert(crate::json::json_view_entries(es) =~= seq![
            ("newPosition"@, JsonV::Int(pos as int)),
            ("gid"@, JsonV::Str(g)),
        ]);
    }
    r
}

} // verus!
