use aria2_mcp::config::{Config, TransportType};
use aria2_mcp::error::{Error, RpcError, ToolError};

#[test]
fn test_default_config() {
    let config = Config::default();
    assert_eq!(config.rpc_url, "http://localhost:6800/jsonrpc");
    assert_eq!(config.transport, TransportType::Stdio);
    assert_eq!(config.http_port, 3000);
}

#[test]
fn config_test_config_new() {
    let config = Config::new("http://test".to_string(), Some("secret".to_string()));
    assert_eq!(config.rpc_url, "http://test");
    assert_eq!(config.rpc_secret, Some("secret".to_string()));
}

#[test]
fn test_config_default() {
    let config = Config::default();
    assert_eq!(config.rpc_url, "http://localhost:6800/jsonrpc");
    assert_eq!(config.rpc_secret, None);
}

#[test]
fn main_test_test_config_new() {
    let config = Config::new("http://example.com".to_string(), Some("secret".to_string()));
    assert_eq!(config.rpc_url, "http://example.com");
    assert_eq!(config.rpc_secret, Some("secret".to_string()));
}

#[test]
fn test_config_auth_token_default() {
    let config = Config::default();
    assert_eq!(config.http_auth_token, None);
}

#[test]
fn test_config_auth_token_override() {
    let mut config = Config::default();
    config.http_auth_token = Some("secret-token".to_string());
    assert_eq!(config.http_auth_token, Some("secret-token".to_string()));
}

#[test]
fn test_config_log_level_default() {
    let config = Config::default();
    assert_eq!(config.log_level, "info");
}

#[test]
fn test_normalize_fills_legacy_instance() {
    let mut config = Config::default();
    config.instances.clear();
    config.rpc_url = "http://legacy:6800/jsonrpc".to_string();
    config.rpc_secret = Some("legacy_secret".to_string());
    config.normalize();
    assert_eq!(config.instances.len(), 1);
    assert_eq!(config.instances[0].name, "default");
    assert_eq!(config.instances[0].rpc_url, "http://legacy:6800/jsonrpc");
}

#[test]
fn test_normalize_keeps_existing_instances() {
    let mut config = Config::default();
    let before = config.instances.len();
    config.normalize();
    assert_eq!(config.instances.len(), before);
}

#[test]
fn error_test_error_display() {
    let err = Error::Internal("test".to_string());
    assert_eq!(err.message(), "Internal error: test");

    let err = Error::Config("test".to_string());
    assert_eq!(err.message(), "Configuration error: test");

    let err = Error::Aria2("test".to_string());
    assert_eq!(err.message(), "Aria2 RPC error: test");

    let err = Error::Mcp("test".to_string());
    assert_eq!(err.message(), "MCP error: test");
}

#[test]
fn main_test_test_error_display() {
    let err = Error::Config("test error".to_string());
    assert_eq!(err.message(), "Configuration error: test error");
}

#[test]
fn test_tool_error_messages() {
    assert_eq!(
        ToolError::ToolNotFound("unknown".to_string()).message(),
        "Tool not found: unknown"
    );
    assert_eq!(
        ToolError::InvalidInstanceIndex(5).message(),
        "Invalid instance index: 5"
    );
    assert_eq!(
        ToolError::InvalidAction("bogus".to_string()).message(),
        "Unknown action: bogus"
    );
    assert_eq!(
        ToolError::UnknownProfile("night".to_string()).message(),
        "Profile 'night' not found"
    );
    assert_eq!(
        ToolError::ScheduleIndexOutOfBounds.message(),
        "Schedule index out of bounds"
    );
}

#[test]
fn test_rpc_error_messages() {
    assert_eq!(
        RpcError::Remote("not found".to_string()).message(),
        "aria2 error: not found"
    );
    assert_eq!(
        RpcError::Transport("refused".to_string()).message(),
        "transport error: refused"
    );
    assert_eq!(
        RpcError::Protocol("bad shape".to_string()).message(),
        "protocol error: bad shape"
    );
}
