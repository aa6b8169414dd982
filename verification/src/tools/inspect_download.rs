//! Inspection of one download: detailed status, its file list, or its
//! URIs, each one remote call keyed by the task's identifier.
use vstd::prelude::*;
use vstd::string::*;

use crate::error::ToolError;
use crate::json::{jv_get, JsonV, JsonValue};
use crate::rpc::RpcRequest;
use crate::tools::{kv, prop_enum, prop_string, schema_object, schema_shape, str_arr};

verus! {

/// What to look at on a download.
#[derive(Debug, PartialEq, Eq, Structural)]
pub enum InspectAction {
    /// Detailed state, progress, and error info for a GID.
    Status,
    /// All files in a task (useful for torrents).
    Files,
    /// The URIs associated with a task.
    Uris,
}

/// The arguments an `inspect_download` call carries.
#[derive(Debug)]
pub struct InspectDownloadParams {
    pub gid: String,
    pub action: InspectAction,
}

pub struct InspectDownloadTool;

impl InspectDownloadTool {
    pub fn name(&self) -> (r: String)
        ensures
            r@ == "inspect_download"@,
    {
        String::from_str("inspect_download")
    }

    pub fn description(&self) -> (r: String)
        ensures
            r@ == "Inspect a download"@,
    {
        String::from_str("Inspect a download")
    }

    pub fn schema(&self) -> (r: JsonValue)
        ensures
            schema_shape(r@),
            crate::json::jv_get(r@, "properties"@) matches Some(JsonV::Obj(ps))
                && ps.len() == 2 && ps[0].0 == "gid"@ && ps[1].0 == "action"@,
    {
        let actions = vec!["status", "files", "uris"];
        let mut props: Vec<(String, JsonValue)> = Vec::new();
        props.push(kv("gid", prop_string("The GID of the download to inspect.")));
        props.push(kv("action", prop_enum("The action to perform.", &actions)));
        let required = vec!["gid", "action"];
        let ghost pv = props@;
        let r = schema_object(props, str_arr(&required));
        proof {
            crate::json::lemma_json_view_entries(pv);
        }
        r
    }

    /// Parses a call's arguments: the task identifier and what to look
    /// at (`status`, `files` or `uris`).
    pub fn parse(&self, args: &JsonValue) -> (r: Result<InspectDownloadParams, ToolError>)
        ensures
            match (
                crate::tools::str_field(args@, "gid"@),
                crate::tools::str_field(args@, "action"@),
            ) {
                (Some(g), Some(a)) => {
                    if a == "status"@ {
                        r matches Ok(p) && p.gid@ == g && p.action == InspectAction::Status
                    } else if a == "files"@ {
                        r matches Ok(p) && p.gid@ == g && p.action == InspectAction::Files
                    } else if a == "uris"@ {
                        r matches Ok(p) && p.gid@ == g && p.action == InspectAction::Uris
                    } else {
                        r matches Err(e) && (e matches ToolError::InvalidAction(x) && x@ == a)
                    }
                },
                _ => r matches Err(e) && e is MissingArgument,
            },
    {
        let gid = match crate::tools::str_field_of(args, "gid") {
            Some(g) => g,
            None => {
                return Err(ToolError::MissingArgument(String::from_str("Missing 'gid'")));
            },
        };
        let action = match crate::tools::str_field_of(args, "action") {
            Some(a) => a,
            None => {
                return Err(ToolError::MissingArgument(String::from_str("Missing 'action'")));
            },
        };
        let parsed = if crate::strutil::str_eq(action, "status") {
            InspectAction::Status
        } else if crate::strutil::str_eq(action, "files") {
            InspectAction::Files
        } else if crate::strutil::str_eq(action, "uris") {
            InspectAction::Uris
        } else {
            return Err(ToolError::InvalidAction(action.to_owned()));
        };
        Ok(InspectDownloadParams { gid: gid.to_owned(), action: parsed })
    }
}

/// The remote operation an inspection issues, always keyed by the task
/// identifier.
pub fn request_of(p: &InspectDownloadParams) -> (r: RpcRequest)
    ensures
        match p.action {
            InspectAction::Status => r.method@ == "aria2.tellStatus"@,
            InspectAction::Files => r.method@ == "aria2.getFiles"@,
            InspectAction::Uris => r.method@ == "aria2.getUris"@,
        },
        crate::json::json_view_seq(r.params@) == seq![JsonV::Str(p.gid@)],
{
    match p.action {
        InspectAction::Status => crate::tools::manage_downloads::single_gid_request(
            "aria2.tellStatus",
            &p.gid,
        ),
        InspectAction::Files => crate::tools::manage_downloads::single_gid_request(
            "aria2.getFiles",
            &p.gid,
        ),
        InspectAction::Uris => crate::tools::manage_downloads::single_gid_request(
            "aria2.getUris",
            &p.gid,
        ),
    }
}

/// Wraps an inspection result under its action's key: `status`, `files`
/// or `uris`.
pub fn wrap_result(p: &InspectDownloadParams, result: JsonValue) -> (r: JsonValue)
    ensures
        match p.action {
            InspectAction::Status => r@ == JsonV::Obj(seq![("status"@, result@)]),
            InspectAction::Files => r@ == JsonV::Obj(seq![("files"@, result@)]),
            InspectAction::Uris => r@ == JsonV::Obj(seq![("uris"@, result@)]),
        },
{
    let ghost rv = result@;
    let key = match p.action {
        InspectAction::Status => String::from_str("status"),
        InspectAction::Files => String::from_str("files"),
        InspectAction::Uris => String::from_str("uris"),
    };
    let ghost kv_ = key@;
    let mut entries: Vec<(String, JsonValue)> = Vec::new();
    entries.push((key, result));
    let ghost es = entries@;
    let r = JsonValue::Obj(entries);
    proof {
        crate::json::lemma_json_view_entries(es);
        assert(crate::json::json_view_entries(es) =~= seq![(kv_, rv)]);
    }
    r
}

} // verus!
