//! BitTorrent-specific management: peer listing, file selection, and
//! tracker updates for one torrent download.
use vstd::prelude::*;
use vstd::string::*;

use crate::error::ToolError;
use crate::json::{jv_get, JsonV, JsonValue};
use crate::rpc::RpcRequest;
use crate::tools::{kv, prop_enum, prop_string, schema_object, schema_shape, str_arr};

verus! {

pub struct ManageTorrentTool;

/// The arguments a `manage_torrent` call carries.
#[derive(Debug)]
pub struct ManageTorrentArgs {
    /// Action to perform: getPeers, changeFiles, addTrackers.
    pub action: String,
    /// GID of the download.
    pub gid: String,
    /// Selected files (comma-separated indices, for changeFiles).
    pub selected_files: Option<String>,
    /// Trackers (comma-separated URIs, for addTrackers).
    pub trackers: Option<String>,
}

impl ManageTorrentTool {
    pub fn name(&self) -> (r: String)
        ensures
            r@ == "manage_torrent"@,
    {
        String::from_str("manage_torrent")
    }

    pub fn description(&self) -> (r: String)
        ensures
            r@ == "Manage BitTorrent-specific settings: get peers, select files, and update trackers"@,
    {
        String::from_str("Manage BitTorrent-specific settings: get peers, select files, and update trackers")
    }

    pub fn schema(&self) -> (r: JsonValue)
        ensures
            schema_shape(r@),
            crate::json::jv_get(r@, "properties"@) matches Some(JsonV::Obj(ps))
                && ps.len() == 4 && ps[0].0 == "action"@ && ps[1].0 == "gid"@ && ps[2].0 == "selectedFiles"@ && ps[3].0 == "trackers"@,
    {
        let actions = vec!["getPeers", "changeFiles", "addTrackers"];
        let mut props: Vec<(String, JsonValue)> = Vec::new();
        props.push(kv("action", prop_enum("Action to perform", &actions)));
        props.push(kv("gid", prop_string("GID of the torrent download")));
        props.push(kv(
            "selectedFiles",
            prop_string("Comma-separated list of file indices to download (e.g., '1,2,5')"),
        ));
        props.push(kv("trackers", prop_string("Comma-separated list of tracker URIs")));
        let required = vec!["action", "gid"];
        let ghost pv = props@;
        let r = schema_object(props, str_arr(&required));
        proof {
            crate::json::lemma_json_view_entries(pv);
        }
        r
    }

    /// Parses a call's arguments; `selectedFiles` and `trackers` are
    /// only read, and only required, by the action that uses them.
    pub fn parse(&self, args: &JsonValue) -> (r: Result<TorrentCommand, ToolError>)
        ensures
            match (
                crate::tools::str_field(args@, "action"@),
                crate::tools::str_field(args@, "gid"@),
            ) {
                (Some(a), Some(g)) => {
                    if a == "getPeers"@ {
                        r matches Ok(TorrentCommand::GetPeers { gid }) && gid@ == g
                    } else if a == "changeFiles"@ {
                        match crate::tools::str_field(args@, "selectedFiles"@) {
                            Some(f) => r matches Ok(TorrentCommand::ChangeFiles { gid, files })
                                && gid@ == g && files@ == f,
                            None => r matches Err(e) && (e matches ToolError::MissingArgument(m)
                                && m@ == "selectedFiles is required for changeFiles"@),
                        }
                    } else if a == "addTrackers"@ {
                        match crate::tools::str_field(args@, "trackers"@) {
                            Some(t) => r matches Ok(TorrentCommand::AddTrackers { gid, trackers })
                                && gid@ == g && trackers@ == t,
                            None => r matches Err(e) && (e matches ToolError::MissingArgument(m)
                                && m@ == "trackers is required for addTrackers"@),
                        }
                    } else {
                        r matches Err(e) && (e matches ToolError::InvalidAction(x) && x@ == a)
                    }
                },
                _ => r matches Err(e) && e is MissingArgument,
            },
    {
        let action = match crate::tools::str_field_of(args, "action") {
            Some(a) => a,
            None => {
                return Err(ToolError::MissingArgument(String::from_str("Missing 'action'")));
            },
        };
        let gid = match crate::tools::str_field_of(args, "gid") {
            Some(g) => g,
            None => {
                return Err(ToolError::MissingArgument(String::from_str("Missing 'gid'")));
            },
        };
        if crate::strutil::str_eq(action, "getPeers") {
            Ok(TorrentCommand::GetPeers { gid: gid.to_owned() })
        } else if crate::strutil::str_eq(action, "changeFiles") {
            match crate::tools::str_field_of(args, "selectedFiles") {
                Some(f) => Ok(
                    TorrentCommand::ChangeFiles { gid: gid.to_owned(), files: f.to_owned() },
                ),
                None => Err(
                    ToolError::MissingArgument(
                        String::from_str("selectedFiles is required for changeFiles"),
                    ),
                ),
            }
        } else if crate::strutil::str_eq(action, "addTrackers") {
            match crate::tools::str_field_of(args, "trackers") {
                Some(t) => Ok(
                    TorrentCommand::AddTrackers { gid: gid.to_owned(), trackers: t.to_owned() },
                ),
                None => Err(
                    ToolError::MissingArgument(
                        String::from_str("trackers is required for addTrackers"),
                    ),
                ),
            }
        } else {
            Err(ToolError::InvalidAction(action.to_owned()))
        }
    }
}

/// One parsed torrent-management command.
#[derive(Debug)]
pub enum TorrentCommand {
    GetPeers { gid: String },
    ChangeFiles { gid: String, files: String },
    AddTrackers { gid: String, trackers: String },
}

/// The remote operation a torrent command issues: the file selection
/// and the tracker list travel as per-task option changes.
pub fn request_of(cmd: &TorrentCommand) -> (r: RpcRequest)
    ensures
        match cmd {
            TorrentCommand::GetPeers { gid } => r.method@ == "aria2.getPeers"@
                && crate::json::json_view_seq(r.params@) == seq![JsonV::Str(gid@)],
            TorrentCommand::ChangeFiles { gid, files } => r.method@ == "aria2.changeOption"@
                && crate::json::json_view_seq(r.params@) == seq![
                JsonV::Str(gid@),
                JsonV::Obj(seq![("select-file"@, JsonV::Str(files@))]),
            ],
            TorrentCommand::AddTrackers { gid, trackers } => r.method@ == "aria2.changeOption"@
                && crate::json::json_view_seq(r.params@) == seq![
                JsonV::Str(gid@),
                JsonV::Obj(seq![("bt-tracker"@, JsonV::Str(trackers@))]),
            ],
        },
{
    match cmd {
        TorrentCommand::GetPeers { gid } => crate::tools::manage_downloads::single_gid_request(
            "aria2.getPeers",
            gid,
        ),
        TorrentCommand::ChangeFiles { gid, files } => option_change_request(
            gid,
            "select-file",
            files,
        ),
        TorrentCommand::AddTrackers { gid, trackers } => option_change_request(
            gid,
            "bt-tracker",
            trackers,
        ),
    }
}

fn option_change_request(gid: &String, key: &str, value: &String) -> (r: RpcRequest)
    ensures
        r.method@ == "aria2.changeOption"@,
        crate::json::json_view_seq(r.params@) == seq![
            JsonV::Str(gid@),
            JsonV::Obj(seq![(key@, JsonV::Str(value@))]),
        ],
{
    let mut opt_entries: Vec<(String, JsonValue)> = Vec::new();
    opt_entries.push((String::from_str(key), JsonValue::Str(value.clone())));
    let ghost oes = opt_entries@;
    let opts = JsonValue::Obj(opt_entries);
    let mut params: Vec<JsonValue> = Vec::new();
    params.push(JsonValue::Str(gid.clone()));
    params.push(opts);
    let ghost ps = params@;
    let r = RpcRequest { method: String::from_str("aria2.changeOption"), params };
    proof {
        crate::json::lemma_json_view_entries(oes);
        assert(crate::json::json_view_entries(oes) =~= seq![(key@, JsonV::Str(value@))]);
        crate::json::lemma_json_view_seq(ps);
        assert(crate::json::json_view_seq(ps) =~= seq![
            JsonV::Str(gid@),
            JsonV::Obj(seq![(key@, JsonV::Str(value@))]),
        ]);
    }
    r
}

/// The `{"status", "gid", ...}` acknowledgement of a successful change:
/// the file selection or tracker list is echoed under its own key.
pub fn ack_response(cmd: &TorrentCommand) -> (r: Option<JsonValue>)
    ensures
        match cmd {
            TorrentCommand::ChangeFiles { gid, files } => r matches Some(v) && v@ == JsonV::Obj(
                seq![
                    ("status"@, JsonV::Str("success"@)),
                    ("gid"@, JsonV::Str(gid@)),
                    ("selectedFiles"@, JsonV::Str(files@)),
                ],
            ),
            TorrentCommand::AddTrackers { gid, trackers } => r matches Some(v) && v@
                == JsonV::Obj(
                seq![
                    ("status"@, JsonV::Str("success"@)),
                    ("gid"@, JsonV::Str(gid@)),
                    ("trackers"@, JsonV::Str(trackers@)),
                ],
            ),
            _ => r is None,
        },
{
    match cmd {
        TorrentCommand::ChangeFiles { gid, files } => Some(
            echo_ack(gid, "selectedFiles", files),
        ),
        TorrentCommand::AddTrackers { gid, trackers } => Some(
            echo_ack(gid, "trackers", trackers),
        ),
        _ => None,
    }
}

fn echo_ack(gid: &String, key: &str, value: &String) -> (r: JsonValue)
    ensures
        r@ == JsonV::Obj(
            seq![
                ("status"@, JsonV::Str("success"@)),
                ("gid"@, JsonV::Str(gid@)),
                (key@, JsonV::Str(value@)),
            ],
        ),
{
    let mut entries: Vec<(String, JsonValue)> = Vec::new();
    entries.push((String::from_str("status"), JsonValue::of_str("success")));
    entries.push((String::from_str("gid"), JsonValue::Str(gid.clone())));
    entries.push((String::from_str(key), JsonValue::Str(value.clone())));
    let ghost es = entries@;
    let r = JsonValue::Obj(entries);
    proof {
        crate::json::lemma_json_view_entries(es);
        assert(crate::json::json_view_entries(es) =~= seq![
            ("status"@, JsonV::Str("success"@)),
            ("gid"@, JsonV::Str(gid@)),
            (key@, JsonV::Str(value@)),
        ]);
    }
    r
}

} // verus!
