use aria2_mcp::config::Config;
use aria2_mcp::dispatch::{manage_tools_apply, tools_call_plan, tools_list_payload, CallPlan,
    ManageToolsOutcome};
use aria2_mcp::error::ToolError;
use aria2_mcp::json::JsonValue;
use aria2_mcp::pool::resolve_instance;
use aria2_mcp::tools::registry::ToolRegistry;
use aria2_mcp::tools::schedule_limits::{ScheduleLimitsTool, SlOutcome};

fn s(v: &str) -> JsonValue {
    JsonValue::Str(v.to_string())
}

fn obj(entries: Vec<(&str, JsonValue)>) -> JsonValue {
    JsonValue::Obj(entries.into_iter().map(|(k, v)| (k.to_string(), v)).collect())
}

fn lazy_config() -> Config {
    let mut config = Config::default();
    config.lazy_mode = true;
    config
}

#[test]
fn test_resolve_instance_defaults_to_first() {
    // No instance field in the arguments routes to index 0.
    let args = obj(vec![("action", s("pause"))]);
    assert_eq!(resolve_instance(&args, 2).unwrap(), 0);
}

#[test]
fn test_resolve_instance_out_of_range() {
    // instance 5 with only two configured instances is refused.
    let args = obj(vec![("instance", JsonValue::Int(5))]);
    match resolve_instance(&args, 2) {
        Err(ToolError::InvalidInstanceIndex(5)) => {}
        other => panic!("expected an invalid-index error, got {:?}", other),
    }
}

#[test]
fn test_resolve_instance_explicit_in_range() {
    let args = obj(vec![("instance", JsonValue::Int(1))]);
    assert_eq!(resolve_instance(&args, 2).unwrap(), 1);
}

#[test]
fn test_tools_call_plan_missing_name() {
    let registry = ToolRegistry::new(&Config::default());
    let params = obj(vec![("arguments", obj(vec![]))]);
    let result = tools_call_plan(&registry, Some(&params), 1);
    assert!(matches!(result, Err(ToolError::MissingArgument(_))));
    let result = tools_call_plan(&registry, None, 1);
    assert!(matches!(result, Err(ToolError::MissingArgument(_))));
}

#[test]
fn test_tools_call_plan_not_found() {
    let registry = ToolRegistry::new(&Config::default());
    let params = obj(vec![("name", s("unknown")), ("arguments", obj(vec![]))]);
    match tools_call_plan(&registry, Some(&params), 1) {
        Err(ToolError::ToolNotFound(name)) => assert_eq!(name, "unknown"),
        other => panic!("expected not-found, got {:?}", other),
    }
}

#[test]
fn test_tools_call_plan_disabled_reports_not_found() {
    // A cataloged but disabled tool is reported exactly like an
    // unknown one: enablement gates visibility and callability alike.
    let registry = ToolRegistry::new(&lazy_config());
    let params = obj(vec![("name", s("manage_downloads")), ("arguments", obj(vec![]))]);
    match tools_call_plan(&registry, Some(&params), 1) {
        Err(ToolError::ToolNotFound(name)) => assert_eq!(name, "manage_downloads"),
        other => panic!("expected not-found, got {:?}", other),
    }
}

#[test]
fn test_tools_call_plan_routes_instance() {
    let registry = ToolRegistry::new(&Config::default());
    let params = obj(vec![
        ("name", s("check_health")),
        ("arguments", obj(vec![("instance", JsonValue::Int(1))])),
    ]);
    match tools_call_plan(&registry, Some(&params), 2) {
        Ok(CallPlan::Invoke { name, client, .. }) => {
            assert_eq!(name, "check_health");
            assert_eq!(client, 1);
        }
        other => panic!("expected an invocation, got {:?}", other),
    }
    let params = obj(vec![
        ("name", s("check_health")),
        ("arguments", obj(vec![("instance", JsonValue::Int(5))])),
    ]);
    assert!(matches!(
        tools_call_plan(&registry, Some(&params), 2),
        Err(ToolError::InvalidInstanceIndex(5))
    ));
}

#[test]
fn test_tools_call_plan_manage_tools_lazy_only() {
    let registry = ToolRegistry::new(&lazy_config());
    let params = obj(vec![
        ("name", s("manage_tools")),
        ("arguments", obj(vec![("action", s("list"))])),
    ]);
    assert!(matches!(
        tools_call_plan(&registry, Some(&params), 1),
        Ok(CallPlan::ManageTools(_))
    ));
    // Outside lazy mode the meta-tool is not cataloged and reads as
    // not found.
    let registry = ToolRegistry::new(&Config::default());
    assert!(matches!(
        tools_call_plan(&registry, Some(&params), 1),
        Err(ToolError::ToolNotFound(_))
    ));
}

#[test]
fn test_manage_tools_enable_reports_count() {
    let mut registry = ToolRegistry::new(&lazy_config());
    let args = obj(vec![
        ("action", s("enable")),
        ("tools", JsonValue::Arr(vec![s("manage_downloads")])),
    ]);
    match manage_tools_apply(&mut registry, &args).unwrap() {
        ManageToolsOutcome::Message(v) => {
            let content = v.get("content").unwrap().as_array().unwrap();
            assert!(content[0].get("text").unwrap().is_str("Enabled 1 tools."));
        }
        other => panic!("expected a message, got a listing: {:?}", matches!(other, ManageToolsOutcome::List(_))),
    }
    assert!(registry.is_tool_enabled("manage_downloads"));
}

#[test]
fn test_manage_tools_disable_reports_count() {
    let mut registry = ToolRegistry::new(&Config::default());
    let args = obj(vec![
        ("action", s("disable")),
        ("tools", JsonValue::Arr(vec![s("manage_downloads"), s("unknown")])),
    ]);
    match manage_tools_apply(&mut registry, &args).unwrap() {
        ManageToolsOutcome::Message(v) => {
            let content = v.get("content").unwrap().as_array().unwrap();
            assert!(content[0].get("text").unwrap().is_str("Disabled 1 tools."));
        }
        _ => panic!("expected a message"),
    }
    assert!(!registry.is_tool_enabled("manage_downloads"));
}

#[test]
fn test_manage_tools_unknown_action() {
    let mut registry = ToolRegistry::new(&lazy_config());
    let args = obj(vec![("action", s("explode"))]);
    assert!(matches!(
        manage_tools_apply(&mut registry, &args),
        Err(ToolError::InvalidAction(_))
    ));
}

#[test]
fn test_tools_list_payload_lazy_appends_meta_tool() {
    let registry = ToolRegistry::new(&lazy_config());
    let payload = tools_list_payload(&registry);
    let tools = payload.get("tools").unwrap().as_array().unwrap();
    assert_eq!(tools.len(), 2);
    assert!(tools[0].get("name").unwrap().is_str("monitor_queue"));
    assert!(tools[1].get("name").unwrap().is_str("manage_tools"));

    let registry = ToolRegistry::new(&Config::default());
    let payload = tools_list_payload(&registry);
    let tools = payload.get("tools").unwrap().as_array().unwrap();
    assert_eq!(tools.len(), 11);
    for t in tools {
        assert!(!t.get("name").unwrap().is_str("manage_tools"));
    }
}

#[test]
fn test_schedule_limits_profile_lifecycle() {
    // Add the profile "night" (down 10M, up 1M), then activate it:
    // exactly one rate-limit change comes out, carrying the raw rate
    // strings unmodified.
    let tool = ScheduleLimitsTool;
    let mut profiles = Vec::new();
    let mut schedules = Vec::new();

    let add = obj(vec![
        ("action", s("add_profile")),
        ("profile_name", s("night")),
        ("max_download", s("10M")),
        ("max_upload", s("1M")),
    ]);
    match tool.apply(&mut profiles, &mut schedules, &add).unwrap() {
        SlOutcome::Done(v) => {
            assert!(v.get("status").unwrap().is_str("success"));
            assert!(v.get("message").unwrap().is_str("Profile 'night' added"));
        }
        _ => panic!("adding a profile needs no remote call"),
    }

    let set = obj(vec![("action", s("set_profile")), ("profile_name", s("night"))]);
    match tool.apply(&mut profiles, &mut schedules, &set).unwrap() {
        SlOutcome::Activate {
            profile_name,
            max_download,
            max_upload,
        } => {
            assert_eq!(profile_name, "night");
            assert_eq!(max_download, "10M");
            assert_eq!(max_upload, "1M");
        }
        _ => panic!("activation must push one rate-limit change"),
    }

    let remove = obj(vec![("action", s("remove_profile")), ("profile_name", s("night"))]);
    assert!(tool.apply(&mut profiles, &mut schedules, &remove).is_ok());
    match tool.apply(&mut profiles, &mut schedules, &set) {
        Err(ToolError::UnknownProfile(name)) => assert_eq!(name, "night"),
        other => panic!("expected an unknown-profile error, got {:?}", other),
    }
}

#[test]
fn test_schedule_limits_schedules() {
    let tool = ScheduleLimitsTool;
    let mut profiles = Vec::new();
    let mut schedules = Vec::new();

    let add_profile = obj(vec![
        ("action", s("add_profile")),
        ("profile_name", s("day")),
        ("max_download", s("100K")),
        ("max_upload", s("100K")),
    ]);
    tool.apply(&mut profiles, &mut schedules, &add_profile).unwrap();

    let add_schedule = obj(vec![
        ("action", s("add_schedule")),
        ("profile_name", s("day")),
        (
            "schedule",
            obj(vec![
                ("day", s("mon")),
                ("start_time", s("09:00")),
                ("end_time", s("17:00")),
            ]),
        ),
    ]);
    tool.apply(&mut profiles, &mut schedules, &add_schedule).unwrap();
    assert_eq!(schedules.len(), 1);
    assert_eq!(schedules[0].day, "mon");

    // A schedule naming an absent profile is refused.
    let bad_schedule = obj(vec![
        ("action", s("add_schedule")),
        ("profile_name", s("ghost")),
        (
            "schedule",
            obj(vec![
                ("day", s("tue")),
                ("start_time", s("09:00")),
                ("end_time", s("17:00")),
            ]),
        ),
    ]);
    assert!(matches!(
        tool.apply(&mut profiles, &mut schedules, &bad_schedule),
        Err(ToolError::UnknownProfile(_))
    ));

    // Removal is by index; an index past the list is refused.
    let bad_remove = obj(vec![("action", s("remove_schedule")), ("index", JsonValue::Int(4))]);
    assert!(matches!(
        tool.apply(&mut profiles, &mut schedules, &bad_remove),
        Err(ToolError::ScheduleIndexOutOfBounds)
    ));
    let remove = obj(vec![("action", s("remove_schedule")), ("index", JsonValue::Int(0))]);
    tool.apply(&mut profiles, &mut schedules, &remove).unwrap();
    assert!(schedules.is_empty());
}

#[test]
fn test_error_envelope_shape() {
    let v = aria2_mcp::dispatch::make_error_envelope("Tool not found: unknown".to_string());
    assert_eq!(v.get("isError").unwrap().as_bool(), Some(true));
    let content = v.get("content").unwrap().as_array().unwrap();
    assert!(content[0].get("type").unwrap().is_str("text"));
    assert!(content[0].get("text").unwrap().is_str("Tool not found: unknown"));
}

#[test]
fn test_text_envelope_shape() {
    let v = aria2_mcp::dispatch::make_text_envelope("{\"status\":\"ok\"}".to_string());
    let content = v.get("content").unwrap().as_array().unwrap();
    assert!(content[0].get("type").unwrap().is_str("text"));
    assert!(content[0].get("text").unwrap().is_str("{\"status\":\"ok\"}"));
}

#[test]
fn test_schedule_limits_missing_action() {
    let tool = ScheduleLimitsTool;
    let mut profiles = Vec::new();
    let mut schedules = Vec::new();
    let args = obj(vec![]);
    assert!(matches!(
        tool.apply(&mut profiles, &mut schedules, &args),
        Err(ToolError::MissingArgument(_))
    ));
}
