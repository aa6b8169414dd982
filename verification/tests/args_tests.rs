use aria2_mcp::args::{parse_log_level, Args, ArgsError};

#[test]
fn test_parse_log_level() {
    assert_eq!(parse_log_level("debug"), "debug");
    assert_eq!(parse_log_level("INFO"), "info");
    assert_eq!(parse_log_level("trace"), "trace");
    assert_eq!(parse_log_level("invalid"), "info");
}

#[test]
fn test_args_parse_transport_invalid() {
    let args = Args::try_parse_from(&vec!["aria2-mcp-rs", "--transport", "unknown"]).unwrap();
    assert_eq!(args.transport, "unknown".to_string());
}

#[test]
fn test_args_parse_no_args() {
    let args = Args::try_parse_from(&vec!["aria2-mcp-rs"]).unwrap();
    assert_eq!(args.rpc_url, "http://localhost:6800/jsonrpc".to_string());
}

#[test]
fn test_args_parse() {
    let args = Args::try_parse_from(&vec!["aria2-mcp-rs", "-u", "http://test"]).unwrap();
    assert_eq!(args.rpc_url, "http://test".to_string());
}

#[test]
fn test_args_parse_long() {
    let args = Args::try_parse_from(&vec!["aria2-mcp-rs", "--rpc-secret", "secret"]).unwrap();
    assert_eq!(args.rpc_secret, Some("secret".to_string()));
}

#[test]
fn test_args_parse_transport_sse() {
    let args = Args::try_parse_from(&vec!["aria2-mcp-rs", "--transport", "sse"]).unwrap();
    assert_eq!(args.transport, "sse".to_string());
}

#[test]
fn test_args_parse_port() {
    let args = Args::try_parse_from(&vec!["aria2-mcp-rs", "--http-port", "4000"]).unwrap();
    assert_eq!(args.http_port, 4000);
}

#[test]
fn test_args_parse_auth_token() {
    let args =
        Args::try_parse_from(&vec!["aria2-mcp-rs", "--http-auth-token", "test-token"]).unwrap();
    assert_eq!(args.http_auth_token, Some("test-token".to_string()));
}

#[test]
fn test_args_parse_log_level() {
    let args = Args::try_parse_from(&vec!["aria2-mcp-rs", "--log-level", "debug"]).unwrap();
    assert_eq!(args.log_level, "debug".to_string());
}

#[test]
fn test_args_parse_all() {
    let args = Args::try_parse_from(&vec![
        "aria2-mcp-rs",
        "-u",
        "http://test",
        "-s",
        "secret",
        "--transport",
        "sse",
        "--http-port",
        "5000",
        "--http-auth-token",
        "test-token",
    ])
    .unwrap();
    assert_eq!(args.rpc_url, "http://test".to_string());
    assert_eq!(args.rpc_secret, Some("secret".to_string()));
    assert_eq!(args.transport, "sse".to_string());
    assert_eq!(args.http_port, 5000);
    assert_eq!(args.http_auth_token, Some("test-token".to_string()));
}

#[test]
fn test_args_default() {
    let args = Args::try_parse_from(&vec!["aria2-mcp-rs"]).unwrap();
    assert_eq!(args.rpc_url, "http://localhost:6800/jsonrpc".to_string());
    assert_eq!(args.transport, "stdio".to_string());
}

#[test]
fn test_args_version() {
    let result = Args::try_parse_from(&vec!["aria2-mcp-rs", "--version"]);
    assert!(result.is_err());
    let err = result.unwrap_err();
    assert!(matches!(err, ArgsError::DisplayVersion));
}

#[test]
fn test_args_unknown_flag() {
    let result = Args::try_parse_from(&vec!["aria2-mcp-rs", "--frobnicate"]);
    assert!(matches!(result, Err(ArgsError::UnknownFlag(_))));
}

#[test]
fn test_args_bad_port() {
    let result = Args::try_parse_from(&vec!["aria2-mcp-rs", "--http-port", "70000"]);
    assert!(matches!(result, Err(ArgsError::InvalidValue(_))));
    let result = Args::try_parse_from(&vec!["aria2-mcp-rs", "--http-port", "12x"]);
    assert!(matches!(result, Err(ArgsError::InvalidValue(_))));
}

#[test]
fn test_args_missing_value() {
    let result = Args::try_parse_from(&vec!["aria2-mcp-rs", "--rpc-secret"]);
    assert!(matches!(result, Err(ArgsError::MissingValue(_))));
}

#[test]
fn test_args_lazy_flag() {
    let args = Args::try_parse_from(&vec!["aria2-mcp-rs", "--lazy"]).unwrap();
    assert!(args.lazy);
    let args = Args::try_parse_from(&vec!["aria2-mcp-rs"]).unwrap();
    assert!(!args.lazy);
}
