//! Configuration access: reading or changing the daemon's global options
//! or the options of one download.
use vstd::prelude::*;
use vstd::string::*;

use crate::error::ToolError;
use crate::json::{jv_get, JsonV, JsonValue};
use crate::rpc::RpcRequest;
use crate::tools::{kv, prop_enum, prop_object, prop_string, schema_object, schema_shape, str_arr};

verus! {

pub struct ConfigureAria2Tool;

impl ConfigureAria2Tool {
    pub fn name(&self) -> (r: String)
        ensures
            r@ == "configure_aria2"@,
    {
        String::from_str("configure_aria2")
    }

    pub fn description(&self) -> (r: String)
        ensures
            r@ == "Retrieve or update aria2 configuration (global or per-download)"@,
    {
        String::from_str("Retrieve or update aria2 configuration (global or per-download)")
    }

    pub fn schema(&self) -> (r: JsonValue)
        ensures
            schema_shape(r@),
            crate::json::jv_get(r@, "properties"@) matches Some(JsonV::Obj(ps))
                && ps.len() == 3 && ps[0].0 == "action"@ && ps[1].0 == "gid"@ && ps[2].0 == "options"@,
    {
        let actions = vec!["get_global", "change_global", "get_local", "change_local"];
        let mut props: Vec<(String, JsonValue)> = Vec::new();
        props.push(kv("action", prop_enum("The configuration action to perform", &actions)));
        props.push(kv(
            "gid",
            prop_string("The GID of the download (required for get_local/change_local)"),
        ));
        props.push(kv(
            "options",
            prop_object("Key-value pairs of options to set (required for change_global/change_local)"),
        ));
        let required = vec!["action"];
        let ghost pv = props@;
        let r = schema_object(props, str_arr(&required));
        proof {
            crate::json::lemma_json_view_entries(pv);
        }
        r
    }

    /// Parses a call's arguments into a configuration command: the
    /// local actions demand a task identifier and the changing actions
    /// an options object.
    pub fn parse(&self, args: &JsonValue) -> (r: Result<ConfigCommand, ToolError>)
        ensures
            match crate::tools::str_field(args@, "action"@) {
                None => r matches Err(e) && e is MissingArgument,
                Some(a) => {
                    if a == "get_global"@ {
                        r matches Ok(c) && c is GetGlobal
                    } else if a == "change_global"@ {
                        match jv_get(args@, "options"@) {
                            Some(o) => r matches Ok(ConfigCommand::ChangeGlobal(v)) && v@ == o,
                            None => r matches Err(e) && e is MissingArgument,
                        }
                    } else if a == "get_local"@ {
                        match crate::tools::str_field(args@, "gid"@) {
                            Some(g) => r matches Ok(ConfigCommand::GetLocal(gid)) && gid@ == g,
                            None => r matches Err(e) && e is MissingArgument,
                        }
                    } else if a == "change_local"@ {
                        match (crate::tools::str_field(args@, "gid"@), jv_get(args@, "options"@)) {
                            (Some(g), Some(o)) => r matches Ok(ConfigCommand::ChangeLocal(gid, v))
                                && gid@ == g && v@ == o,
                            _ => r matches Err(e) && e is MissingArgument,
                        }
                    } else {
                        r matches Err(e) && (e matches ToolError::InvalidAction(x) && x@ == a)
                    }
                },
            },
    {
        let action = match crate::tools::str_field_of(args, "action") {
            Some(a) => a,
            None => {
                return Err(
                    ToolError::MissingArgument(
                        String::from_str("Missing or invalid 'action' argument"),
                    ),
                );
            },
        };
        if crate::strutil::str_eq(action, "get_global") {
            Ok(ConfigCommand::GetGlobal)
        } else if crate::strutil::str_eq(action, "change_global") {
            match args.get("options") {
                Some(o) => Ok(ConfigCommand::ChangeGlobal(o.deep_copy())),
                None => Err(
                    ToolError::MissingArgument(
                        String::from_str("Missing 'options' for change_global"),
                    ),
                ),
            }
        } else if crate::strutil::str_eq(action, "get_local") {
            match crate::tools::str_field_of(args, "gid") {
                Some(g) => Ok(ConfigCommand::GetLocal(g.to_owned())),
                None => Err(
                    ToolError::MissingArgument(String::from_str("Missing 'gid' for get_local")),
                ),
            }
        } else if crate::strutil::str_eq(action, "change_local") {
            let gid = match crate::tools::str_field_of(args, "gid") {
                Some(g) => g,
                None => {
                    return Err(
                        ToolError::MissingArgument(
                            String::from_str("Missing 'gid' for change_local"),
                        ),
                    );
                },
            };
            match args.get("options") {
                Some(o) => Ok(ConfigCommand::ChangeLocal(gid.to_owned(), o.deep_copy())),
                None => Err(
                    ToolError::MissingArgument(
                        String::from_str("Missing 'options' for change_local"),
                    ),
                ),
            }
        } else {
            Err(ToolError::InvalidAction(action.to_owned()))
        }
    }
}

/// One parsed configuration command.
#[derive(Debug)]
pub enum ConfigCommand {
    GetGlobal,
    ChangeGlobal(JsonValue),
    GetLocal(String),
    ChangeLocal(String, JsonValue),
}

/// The remote operation a configuration command issues.
pub fn request_of(cmd: &ConfigCommand) -> (r: RpcRequest)
    ensures
        match cmd {
            ConfigCommand::GetGlobal => r.method@ == "aria2.getGlobalOption"@
                && crate::json::json_view_seq(r.params@) == Seq::<JsonV>::empty(),
            ConfigCommand::ChangeGlobal(o) => r.method@ == "aria2.changeGlobalOption"@
                && crate::json::json_view_seq(r.params@) == seq![o@],
            ConfigCommand::GetLocal(gid) => r.method@ == "aria2.getOption"@
                && crate::json::json_view_seq(r.params@) == seq![JsonV::Str(gid@)],
            ConfigCommand::ChangeLocal(gid, o) => r.method@ == "aria2.changeOption"@
                && crate::json::json_view_seq(r.params@) == seq![JsonV::Str(gid@), o@],
        },
{
    match cmd {
        ConfigCommand::GetGlobal => {
            let params: Vec<JsonValue> = Vec::new();
            let ghost ps = params@;
            let r = RpcRequest { method: String::from_str("aria2.getGlobalOption"), params };
            proof {
                crate::json::lemma_json_view_seq(ps);
                assert(crate::json::json_view_seq(ps) =~= Seq::<JsonV>::empty());
            }
            r
        },
        ConfigCommand::ChangeGlobal(o) => {
            let mut params: Vec<JsonValue> = Vec::new();
            params.push(o.deep_copy());
            let ghost ps = params@;
            let r = RpcRequest { method: String::from_str("aria2.changeGlobalOption"), params };
            proof {
                crate::json::lemma_json_view_seq(ps);
                assert(crate::json::json_view_seq(ps) =~= seq![o@]);
            }
            r
        },
        ConfigCommand::GetLocal(gid) => crate::tools::manage_downloads::single_gid_request(
            "aria2.getOption",
            gid,
        ),
        ConfigCommand::ChangeLocal(gid, o) => {
            let mut params: Vec<JsonValue> = Vec::new();
            params.push(JsonValue::Str(gid.clone()));
            params.push(o.deep_copy());
            let ghost ps = params@;
            let r = RpcRequest { method: String::from_str("aria2.changeOption"), params };
            proof {
                crate::json::lemma_json_view_seq(ps);
                assert(crate::json::json_view_seq(ps) =~= seq![JsonV::Str(gid@), o@]);
            }
            r
        },
    }
}

/// The acknowledgement a successful change reports: a fixed message for
/// the global change, and one naming the task for the local change.
pub fn change_response(cmd: &ConfigCommand) -> (r: Option<JsonValue>)
    ensures
        match cmd {
            ConfigCommand::ChangeGlobal(_) => r matches Some(v) && v@
                == crate::tools::schedule_limits::success_json("Global options updated"@),
            ConfigCommand::ChangeLocal(gid, _) => r matches Some(v) && v@
                == crate::tools::schedule_limits::success_json(
                "Options updated for GID "@ + gid@,
            ),
            _ => r is None,
        },
{
    match cmd {
        ConfigCommand::ChangeGlobal(_) => {
            let msg = String::from_str("Global options updated");
            Some(success_obj(msg))
        },
        ConfigCommand::ChangeLocal(gid, _) => {
            let msg = String::from_str("Options updated for GID ").concat(gid.as_str());
            Some(success_obj(msg))
        },
        _ => None,
    }
}

fn success_obj(msg: String) -> (r: JsonValue)
    ensures
        r@ == crate::tools::schedule_limits::success_json(msg@),
{
    let ghost m = msg@;
    let mut entries: Vec<(String, JsonValue)> = Vec::new();
    entries.push((String::from_str("status"), JsonValue::of_str("success")));
    entries.push((String::from_str("message"), JsonValue::Str(msg)));
    let ghost es = entries@;
    let r = JsonValue::Obj(entries);
    proof {
        crate::json::lemma_json_view_entries(es);
        assert(crate::json::json_view_entries(es)
            =~= crate::tools::schedule_limits::success_json(m)->Obj_0);
    }
    r
}

} // verus!
