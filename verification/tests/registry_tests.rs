use aria2_mcp::config::Config;
use aria2_mcp::json::JsonValue;
use aria2_mcp::tools::registry::{decorate_schema, ToolRegistry};

fn lazy_config() -> Config {
    let mut config = Config::default();
    config.lazy_mode = true;
    config
}

#[test]
fn test_registry_new() {
    let registry = ToolRegistry::new(&Config::default());
    let tools = registry.list_tools();
    assert_eq!(tools.len(), 11);
}

#[test]
fn test_registry_get_tool() {
    let registry = ToolRegistry::new(&Config::default());
    assert!(registry.get_tool("manage_downloads").is_some());
    assert!(registry.get_tool("unknown").is_none());
}

#[test]
fn test_registry_lazy_mode() {
    let registry = ToolRegistry::new(&lazy_config());
    let tools = registry.list_tools();
    assert_eq!(tools.len(), 1); // Only monitor_queue
    assert_eq!(tools[0].name, "monitor_queue");
}

#[test]
fn test_registry_enable_disable() {
    let mut registry = ToolRegistry::new(&lazy_config());

    assert!(!registry.is_tool_enabled("manage_downloads"));

    assert!(registry.enable_tool("manage_downloads"));
    assert!(registry.is_tool_enabled("manage_downloads"));
    assert_eq!(registry.list_tools().len(), 2);

    assert!(registry.disable_tool("manage_downloads"));
    assert!(!registry.is_tool_enabled("manage_downloads"));
    assert_eq!(registry.list_tools().len(), 1);
}

#[test]
fn test_registry_list_available() {
    let registry = ToolRegistry::new(&Config::default());
    let available = registry.list_available_tools();
    assert_eq!(available.len(), 11);
    for tool in &available {
        assert_eq!(tool.get("enabled").unwrap().as_bool(), Some(true));
    }
    // The rows stand in ascending name order.
    let names: Vec<String> = available
        .iter()
        .map(|t| t.get("name").unwrap().as_str().unwrap().to_string())
        .collect();
    for pair in names.windows(2) {
        assert!(pair[0] <= pair[1], "rows out of order: {} before {}", pair[0], pair[1]);
    }
    assert_eq!(names[0], "bulk_manage_downloads");
    assert_eq!(names[10], "search_downloads");
    assert!(names.contains(&"manage_downloads".to_string()));
}

#[test]
fn test_list_available_includes_disabled() {
    // Introspection ignores enablement: a lazy registry still lists
    // the whole catalog, with the flags telling the state.
    let registry = ToolRegistry::new(&lazy_config());
    let available = registry.list_available_tools();
    assert_eq!(available.len(), 11);
    let enabled_count = available
        .iter()
        .filter(|t| t.get("enabled").unwrap().as_bool() == Some(true))
        .count();
    assert_eq!(enabled_count, 1);
}

#[test]
fn test_register_schema_without_properties() {
    // A schema without a property map gains one holding `instance`,
    // and a missing top-level type is set to "object".
    let bare = JsonValue::Obj(Vec::new());
    let decorated = decorate_schema(bare);
    assert!(decorated.get("type").unwrap().is_str("object"));
    let instance = decorated
        .get("properties")
        .unwrap()
        .get("instance")
        .unwrap();
    assert!(instance.get("type").unwrap().is_str("integer"));

    // A schema whose `properties` is not an object is left alone.
    let odd = JsonValue::Obj(vec![(
        "properties".to_string(),
        JsonValue::Str("not a map".to_string()),
    )]);
    let kept = decorate_schema(odd);
    assert!(kept.get("properties").unwrap().is_str("not a map"));
}

#[test]
fn test_registry_tool_schema_has_instance() {
    let registry = ToolRegistry::new(&Config::default());
    let tool = registry.get_tool("manage_downloads").unwrap();
    let instance = tool
        .schema
        .get("properties")
        .unwrap()
        .get("instance")
        .unwrap();
    assert!(instance.get("type").unwrap().is_str("integer"));
}

#[test]
fn test_registry_default() {
    let _registry = ToolRegistry::default();
}

#[test]
fn test_enable_unknown_name_changes_nothing() {
    // Enabling or disabling a name outside the catalog returns false
    // and leaves the enabled set as it was.
    let mut registry = ToolRegistry::new(&lazy_config());
    let before = registry.list_tools().len();
    assert!(!registry.enable_tool("unknown"));
    assert!(!registry.disable_tool("unknown"));
    assert_eq!(registry.list_tools().len(), before);
    assert!(!registry.is_tool_enabled("unknown"));
}

#[test]
fn test_listing_only_shows_enabled_names() {
    let mut registry = ToolRegistry::new(&lazy_config());
    registry.enable_tool("check_health");
    let listed = registry.list_tools();
    for d in &listed {
        assert!(registry.is_tool_enabled(&d.name));
    }
    // get_tool still finds a disabled tool: existence is independent of
    // enablement.
    assert!(registry.get_tool("manage_torrent").is_some());
    assert!(!registry.is_tool_enabled("manage_torrent"));
}

#[test]
fn test_non_lazy_catalog_all_enabled() {
    let registry = ToolRegistry::new(&Config::default());
    for d in registry.list_available_tools() {
        assert_eq!(d.get("enabled").unwrap().as_bool(), Some(true));
    }
    assert!(registry.is_tool_enabled("schedule_limits"));
    assert!(!registry.is_lazy_mode());
}
