use aria2_mcp::resources::{tail_lines, ActiveDownloadsResource, GlobalStatusResource, RecentLogsResource};
use aria2_mcp::tools::bulk_manage_downloads::BulkManageDownloadsTool;
use aria2_mcp::tools::check_health::CheckHealthTool;
use aria2_mcp::tools::manage_torrent::ManageTorrentTool;
use aria2_mcp::tools::search_downloads::SearchDownloadsTool;
use aria2_mcp::resources::{resource_contents, resources_list_rows};
use aria2_mcp::scheduler::parse_hhmm;
use aria2_mcp::strutil::{parse_u16, parse_u64, str_contains, str_eq, str_lex_leq, u64_to_string};

#[test]
fn test_str_eq() {
    assert!(str_eq("abc", "abc"));
    assert!(!str_eq("abc", "abd"));
    assert!(!str_eq("abc", "ab"));
    assert!(str_eq("", ""));
}

#[test]
fn test_u64_to_string() {
    assert_eq!(u64_to_string(0), "0");
    assert_eq!(u64_to_string(7), "7");
    assert_eq!(u64_to_string(42), "42");
    assert_eq!(u64_to_string(1048576), "1048576");
}

#[test]
fn test_parse_u16() {
    assert_eq!(parse_u16("0"), Some(0));
    assert_eq!(parse_u16("4000"), Some(4000));
    assert_eq!(parse_u16("65535"), Some(65535));
    assert_eq!(parse_u16("65536"), None);
    assert_eq!(parse_u16(""), None);
    assert_eq!(parse_u16("12x"), None);
}

#[test]
fn test_parse_u64() {
    assert_eq!(parse_u64("1073741824"), Some(1073741824));
    assert_eq!(parse_u64("18446744073709551615"), Some(u64::MAX));
    assert_eq!(parse_u64("18446744073709551616"), None);
    assert_eq!(parse_u64("-1"), None);
}

#[test]
fn test_str_contains() {
    assert!(str_contains("hello world", "lo w"));
    assert!(str_contains("hello", ""));
    assert!(str_contains("hello", "hello"));
    assert!(!str_contains("hello", "world"));
    assert!(!str_contains("ab", "abc"));
}

#[test]
fn test_parse_hhmm() {
    assert_eq!(parse_hhmm("00:00"), Some(0));
    assert_eq!(parse_hhmm("09:30"), Some(570));
    assert_eq!(parse_hhmm("23:59"), Some(1439));
    assert_eq!(parse_hhmm("24:00"), None);
    assert_eq!(parse_hhmm("12:60"), None);
    assert_eq!(parse_hhmm("9:00"), None);
    assert_eq!(parse_hhmm("ab:cd"), None);
}

#[test]
fn test_tail_lines() {
    assert_eq!(tail_lines("Line 1\nLine 2\nLine 3\nLine 4\nLine 5\n", 3), "Line 3\nLine 4\nLine 5");
    assert_eq!(tail_lines("Line 1\nLine 2\n", 10), "Line 1\nLine 2");
    assert_eq!(tail_lines("", 10), "");
    assert_eq!(tail_lines("no newline", 2), "no newline");
}

#[test]
fn test_recent_logs_resource_metadata() {
    let resource = RecentLogsResource::new("/var/log/app.log".to_string(), 100);
    assert_eq!(resource.uri(), "aria2://logs/recent");
    assert_eq!(resource.mime_type(), "text/plain");
    assert_eq!(
        resource.description(),
        "Last 100 lines of the application log file at /var/log/app.log."
    );
}

#[test]
fn test_resources_list_rows_sorted_by_uri() {
    let logs = RecentLogsResource::new("/var/log/aria2-mcp.log".to_string(), 100);
    let rows = resources_list_rows(&logs);
    assert_eq!(rows.len(), 3);
    assert!(rows[0].get("uri").unwrap().is_str("aria2://downloads/active"));
    assert!(rows[1].get("uri").unwrap().is_str("aria2://logs/recent"));
    assert!(rows[2].get("uri").unwrap().is_str("aria2://status/global"));
    assert!(rows[2].get("mimeType").unwrap().is_str("application/json"));
}

#[test]
fn test_resource_contents_shape() {
    let v = resource_contents("aria2://logs/recent", "text/plain", "Line 1".to_string());
    let contents = v.get("contents").unwrap().as_array().unwrap();
    assert!(contents[0].get("uri").unwrap().is_str("aria2://logs/recent"));
    assert!(contents[0].get("text").unwrap().is_str("Line 1"));
}

#[test]
fn test_str_lex_leq() {
    assert!(str_lex_leq("abc", "abd"));
    assert!(str_lex_leq("abc", "abc"));
    assert!(str_lex_leq("ab", "abc"));
    assert!(!str_lex_leq("abd", "abc"));
    assert!(!str_lex_leq("b", "abc"));
}

#[test]
fn test_resource_uris() {
    assert_eq!(ActiveDownloadsResource.uri(), "aria2://downloads/active");
    assert_eq!(GlobalStatusResource.uri(), "aria2://status/global");
    assert_eq!(GlobalStatusResource.plan().method, "aria2.getGlobalStat");
    assert_eq!(ActiveDownloadsResource.plan().method, "aria2.tellActive");
}

#[test]
fn test_tool_names_and_schemas() {
    assert_eq!(BulkManageDownloadsTool.name(), "bulk_manage_downloads");
    assert_eq!(CheckHealthTool.name(), "check_health");
    assert_eq!(ManageTorrentTool.name(), "manage_torrent");
    assert_eq!(SearchDownloadsTool.name(), "search_downloads");

    let schema = ManageTorrentTool.schema();
    assert!(schema.get("type").unwrap().is_str("object"));
    let required = schema.get("required").unwrap().as_array().unwrap();
    assert!(required[0].is_str("action"));
    assert!(required[1].is_str("gid"));

    let schema = BulkManageDownloadsTool.schema();
    let required = schema.get("required").unwrap().as_array().unwrap();
    assert!(required[0].is_str("action"));
    assert!(required[1].is_str("gids"));
}
