use aria2_mcp::error::{RpcError, ToolError};
use aria2_mcp::json::JsonValue;
use aria2_mcp::rpc::{apply_secret, build_request, extract_gid, extract_position,
    extract_version, normalize_reply};
use aria2_mcp::tools::manage_downloads::{self, DownloadCommand, ManageDownloadsTool};
use aria2_mcp::tools::monitor_queue::{self, MonitorQueueTool};
use aria2_mcp::tools::inspect_download::{self, InspectAction, InspectDownloadTool};
use aria2_mcp::tools::configure_aria2::{self, ConfigCommand, ConfigureAria2Tool};
use aria2_mcp::tools::manage_torrent::{self, ManageTorrentTool, TorrentCommand};
use aria2_mcp::tools::bulk_manage_downloads::{self, BulkManageDownloadsTool};
use aria2_mcp::tools::manage_all_instances::{self, ManageAllInstancesTool};

fn s(v: &str) -> JsonValue {
    JsonValue::Str(v.to_string())
}

fn obj(entries: Vec<(&str, JsonValue)>) -> JsonValue {
    JsonValue::Obj(entries.into_iter().map(|(k, v)| (k.to_string(), v)).collect())
}

#[test]
fn test_rate_limit_request_carries_raw_strings() {
    let req = aria2_mcp::rpc::rate_limit_request("10M", "1M");
    assert_eq!(req.method, "aria2.changeGlobalOption");
    assert_eq!(req.params.len(), 1);
    let opts = &req.params[0];
    assert!(opts.get("max-overall-download-limit").unwrap().is_str("10M"));
    assert!(opts.get("max-overall-upload-limit").unwrap().is_str("1M"));
}

#[test]
fn test_activated_response() {
    let v = aria2_mcp::tools::schedule_limits::activated_response("night");
    assert!(v.get("status").unwrap().is_str("success"));
    assert!(v.get("message").unwrap().is_str("Profile 'night' activated"));
}

#[test]
fn test_apply_secret_prepends_token() {
    let params = vec![s("gid1")];
    let with = apply_secret(&Some("secret".to_string()), params);
    assert_eq!(with.len(), 2);
    assert!(with[0].is_str("token:secret"));
    assert!(with[1].is_str("gid1"));

    let without = apply_secret(&None, vec![s("gid1")]);
    assert_eq!(without.len(), 1);
    assert!(without[0].is_str("gid1"));
}

#[test]
fn test_build_request_envelope() {
    let body = build_request("aria2.pause", vec![s("g")]);
    assert!(body.get("jsonrpc").unwrap().is_str("2.0"));
    assert!(body.get("id").unwrap().is_str("aria2-mcp"));
    assert!(body.get("method").unwrap().is_str("aria2.pause"));
    let params = body.get("params").unwrap().as_array().unwrap();
    assert_eq!(params.len(), 1);
    assert!(params[0].is_str("g"));
}

#[test]
fn test_normalize_reply_result() {
    let reply = obj(vec![("result", s("0123456789abcdef"))]);
    let out = normalize_reply(&reply).unwrap();
    assert!(out.is_str("0123456789abcdef"));
}

#[test]
fn test_normalize_reply_error_object() {
    let reply = obj(vec![(
        "error",
        obj(vec![("code", JsonValue::Int(1)), ("message", s("Unauthorized"))]),
    )]);
    match normalize_reply(&reply) {
        Err(RpcError::Remote(m)) => assert_eq!(m, "Unauthorized"),
        other => panic!("expected a remote error, got {:?}", other),
    }
}

#[test]
fn test_normalize_reply_missing_result() {
    let reply = obj(vec![("jsonrpc", s("2.0"))]);
    assert!(matches!(normalize_reply(&reply), Err(RpcError::Protocol(_))));
}

#[test]
fn test_result_projections() {
    assert_eq!(extract_gid(&s("abc")).unwrap(), "abc");
    assert!(matches!(extract_gid(&JsonValue::Int(3)), Err(RpcError::Protocol(_))));
    assert_eq!(extract_position(&JsonValue::Int(2)).unwrap(), 2);
    assert!(matches!(extract_position(&s("2")), Err(RpcError::Protocol(_))));
    let version = obj(vec![("version", s("1.36.0"))]);
    assert_eq!(extract_version(&version).unwrap(), "1.36.0");
    assert!(matches!(extract_version(&obj(vec![])), Err(RpcError::Protocol(_))));
}

#[test]
fn test_manage_downloads_parse_and_request() {
    let tool = ManageDownloadsTool;
    let args = obj(vec![
        ("action", s("add")),
        ("uris", JsonValue::Arr(vec![s("https://example.com/1")])),
    ]);
    let cmd = tool.parse(&args).unwrap();
    let req = manage_downloads::request_of(&cmd);
    assert_eq!(req.method, "aria2.addUri");
    assert_eq!(req.params.len(), 1);
    let uris = req.params[0].as_array().unwrap();
    assert!(uris[0].is_str("https://example.com/1"));

    let args = obj(vec![("action", s("pause")), ("gid", s("g1"))]);
    let cmd = tool.parse(&args).unwrap();
    let req = manage_downloads::request_of(&cmd);
    assert_eq!(req.method, "aria2.pause");
    assert_eq!(
        manage_downloads::ack_status(&cmd).unwrap(),
        "paused"
    );

    let args = obj(vec![
        ("action", s("move")),
        ("gid", s("g1")),
        ("pos", JsonValue::Int(0)),
        ("how", s("POS_SET")),
    ]);
    let cmd = tool.parse(&args).unwrap();
    let req = manage_downloads::request_of(&cmd);
    assert_eq!(req.method, "aria2.changePosition");
    assert_eq!(req.params.len(), 3);
}

#[test]
fn test_manage_downloads_parse_errors() {
    let tool = ManageDownloadsTool;
    let args = obj(vec![("action", s("pause"))]);
    assert!(matches!(tool.parse(&args), Err(ToolError::MissingArgument(_))));
    let args = obj(vec![("action", s("add"))]);
    assert!(matches!(tool.parse(&args), Err(ToolError::MissingArgument(_))));
    let args = obj(vec![("action", s("explode"))]);
    match tool.parse(&args) {
        Err(ToolError::InvalidAction(a)) => assert_eq!(a, "explode"),
        other => panic!("expected invalid action, got {:?}", other),
    }
    let args = obj(vec![]);
    assert!(matches!(tool.parse(&args), Err(ToolError::MissingArgument(_))));
}

#[test]
fn test_manage_downloads_responses() {
    let v = manage_downloads::gid_response("g9".to_string());
    assert!(v.get("gid").unwrap().is_str("g9"));
    let v = manage_downloads::status_response("paused".to_string(), "g1".to_string());
    assert!(v.get("status").unwrap().is_str("paused"));
    assert!(v.get("gid").unwrap().is_str("g1"));
    let v = manage_downloads::move_response(4, "g1".to_string());
    assert_eq!(v.get("newPosition").unwrap().as_u64(), Some(4));
}

#[test]
fn test_monitor_queue_requests() {
    let tool = MonitorQueueTool;
    let args = obj(vec![("action", s("waiting"))]);
    let q = tool.parse(&args).unwrap();
    let req = monitor_queue::request_of(q).unwrap();
    assert_eq!(req.method, "aria2.tellWaiting");
    assert_eq!(req.params.len(), 2);
    assert_eq!(req.params[0].as_u64(), Some(0));
    assert_eq!(req.params[1].as_u64(), Some(100));

    let args = obj(vec![("action", s("stats"))]);
    let q = tool.parse(&args).unwrap();
    let req = monitor_queue::request_of(q).unwrap();
    assert_eq!(req.method, "aria2.getGlobalStat");
    assert!(req.params.is_empty());

    let args = obj(vec![("action", s("explode"))]);
    let q = tool.parse(&args).unwrap();
    assert!(matches!(
        monitor_queue::request_of(q),
        Err(ToolError::InvalidAction(_))
    ));
}

#[test]
fn test_inspect_download_plan() {
    let tool = InspectDownloadTool;
    let args = obj(vec![("gid", s("g1")), ("action", s("files"))]);
    let p = tool.parse(&args).unwrap();
    assert!(matches!(p.action, InspectAction::Files));
    let req = inspect_download::request_of(&p);
    assert_eq!(req.method, "aria2.getFiles");
    let wrapped = inspect_download::wrap_result(&p, s("x"));
    assert!(wrapped.get("files").unwrap().is_str("x"));
}

#[test]
fn test_configure_aria2_plan() {
    let tool = ConfigureAria2Tool;
    let args = obj(vec![("action", s("get_global"))]);
    let cmd = tool.parse(&args).unwrap();
    let req = configure_aria2::request_of(&cmd);
    assert_eq!(req.method, "aria2.getGlobalOption");

    let args = obj(vec![
        ("action", s("change_global")),
        ("options", obj(vec![("max-overall-download-limit", s("10K"))])),
    ]);
    let cmd = tool.parse(&args).unwrap();
    let req = configure_aria2::request_of(&cmd);
    assert_eq!(req.method, "aria2.changeGlobalOption");
    let ack = configure_aria2::change_response(&cmd).unwrap();
    assert!(ack.get("message").unwrap().is_str("Global options updated"));

    let args = obj(vec![("action", s("change_local")), ("gid", s("g1"))]);
    assert!(matches!(tool.parse(&args), Err(ToolError::MissingArgument(_))));

    let args = obj(vec![
        ("action", s("change_local")),
        ("gid", s("g1")),
        ("options", obj(vec![("max-download-limit", s("5K"))])),
    ]);
    let cmd = tool.parse(&args).unwrap();
    assert!(matches!(cmd, ConfigCommand::ChangeLocal(..)));
    let ack = configure_aria2::change_response(&cmd).unwrap();
    assert!(ack.get("message").unwrap().is_str("Options updated for GID g1"));
}

#[test]
fn test_manage_torrent_plan() {
    let tool = ManageTorrentTool;
    let args = obj(vec![("action", s("getPeers")), ("gid", s("g1"))]);
    let cmd = tool.parse(&args).unwrap();
    assert!(matches!(cmd, TorrentCommand::GetPeers { .. }));
    assert_eq!(manage_torrent::request_of(&cmd).method, "aria2.getPeers");

    let args = obj(vec![("action", s("changeFiles")), ("gid", s("g1"))]);
    match tool.parse(&args) {
        Err(ToolError::MissingArgument(m)) => {
            assert_eq!(m, "selectedFiles is required for changeFiles")
        }
        other => panic!("expected a missing-argument error, got {:?}", other),
    }

    let args = obj(vec![("action", s("addTrackers")), ("gid", s("g1"))]);
    match tool.parse(&args) {
        Err(ToolError::MissingArgument(m)) => {
            assert_eq!(m, "trackers is required for addTrackers")
        }
        other => panic!("expected a missing-argument error, got {:?}", other),
    }

    let args = obj(vec![
        ("action", s("changeFiles")),
        ("gid", s("g1")),
        ("selectedFiles", s("1,2,3")),
    ]);
    let cmd = tool.parse(&args).unwrap();
    let req = manage_torrent::request_of(&cmd);
    assert_eq!(req.method, "aria2.changeOption");
    let opts = &req.params[1];
    assert!(opts.get("select-file").unwrap().is_str("1,2,3"));
    let ack = manage_torrent::ack_response(&cmd).unwrap();
    assert!(ack.get("selectedFiles").unwrap().is_str("1,2,3"));
}

#[test]
fn test_bulk_manage_summarize() {
    let tool = BulkManageDownloadsTool;
    let args = obj(vec![
        ("action", s("pause")),
        ("gids", JsonValue::Arr(vec![s("a"), s("b")])),
    ]);
    let parsed = tool.parse(&args).unwrap();
    assert_eq!(parsed.action, "pause");
    assert_eq!(parsed.gids, vec!["a".to_string(), "b".to_string()]);

    let outcomes = vec![
        ("a".to_string(), None),
        ("b".to_string(), Some("aria2 error: not found".to_string())),
    ];
    let report = bulk_manage_downloads::summarize(&outcomes);
    assert_eq!(report.get("success_count").unwrap().as_u64(), Some(1));
    assert_eq!(report.get("failure_count").unwrap().as_u64(), Some(1));
    let rows = report.get("results").unwrap().as_array().unwrap();
    assert!(rows[0].get("status").unwrap().is_str("success"));
    assert!(rows[1].get("status").unwrap().is_str("error"));
    assert!(rows[1].get("message").unwrap().is_str("aria2 error: not found"));
}

#[test]
fn test_bulk_manage_unknown_action_fails_each_task() {
    match bulk_manage_downloads::command_for("invalid", "g".to_string()) {
        Err(ToolError::InvalidAction(a)) => assert_eq!(a, "invalid"),
        other => panic!("expected invalid action, got {:?}", other),
    }
    let cmd = bulk_manage_downloads::command_for("resume", "g".to_string()).unwrap();
    assert!(matches!(cmd, DownloadCommand::Resume { .. }));
}

#[test]
fn test_manage_all_instances_plan_and_report() {
    let tool = ManageAllInstancesTool;
    let args = obj(vec![("action", s("purge"))]);
    let req = tool.plan(&args).unwrap();
    assert_eq!(req.method, "aria2.purgeDownloadResult");

    let args = obj(vec![("action", s("invalid"))]);
    assert!(matches!(tool.plan(&args), Err(ToolError::InvalidAction(_))));

    let outcomes = vec![
        ("box1".to_string(), None),
        ("box2".to_string(), Some("transport error: refused".to_string())),
    ];
    let report = manage_all_instances::summarize("pause", &outcomes);
    assert!(report.get("action").unwrap().is_str("pause"));
    let rows = report.get("results").unwrap().as_array().unwrap();
    assert!(rows[0].get("status").unwrap().is_str("ok"));
    assert!(rows[0].get("message").unwrap().is_str("Success"));
    assert!(rows[1].get("status").unwrap().is_str("error"));
}
