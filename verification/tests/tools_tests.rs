use aria2_mcp::json::JsonValue;
use aria2_mcp::tools::check_health::CheckHealthTool;
use aria2_mcp::tools::organize_completed::Rule;
use aria2_mcp::tools::search_downloads::{SearchDownloadsArgs, SearchDownloadsTool};

fn s(v: &str) -> JsonValue {
    JsonValue::Str(v.to_string())
}

fn obj(entries: Vec<(&str, JsonValue)>) -> JsonValue {
    JsonValue::Obj(entries.into_iter().map(|(k, v)| (k.to_string(), v)).collect())
}

fn arr(items: Vec<JsonValue>) -> JsonValue {
    JsonValue::Arr(items)
}

fn stats_zero() -> JsonValue {
    obj(vec![
        ("numActive", s("0")),
        ("numWaiting", s("0")),
        ("numStopped", s("0")),
        ("downloadSpeed", s("0")),
        ("uploadSpeed", s("0")),
    ])
}

#[test]
fn test_analyze_health_healthy() {
    let tool = CheckHealthTool;
    let stats = stats_zero();
    let active = arr(vec![]);
    let stopped = arr(vec![]);
    let disk = Some(10 * 1024 * 1024 * 1024u64);

    let report = tool.analyze_health(&stats, &active, &stopped, disk, "/tmp");
    assert!(report.get("status").unwrap().is_str("healthy"));
    assert!(report.get("issues").unwrap().as_array().unwrap().is_empty());
}

#[test]
fn test_analyze_health_stalled() {
    let tool = CheckHealthTool;
    let stats = stats_zero();
    let active = arr(vec![obj(vec![
        ("gid", s("1")),
        ("connections", s("0")),
        ("downloadSpeed", s("0")),
    ])]);
    let stopped = arr(vec![]);

    let report = tool.analyze_health(&stats, &active, &stopped, None, "/tmp");
    assert!(report.get("status").unwrap().is_str("unhealthy"));
    let issues = report.get("issues").unwrap().as_array().unwrap();
    assert!(issues[0].get("type").unwrap().is_str("stalled_download"));
}

#[test]
fn test_analyze_health_error() {
    let tool = CheckHealthTool;
    let stats = stats_zero();
    let active = arr(vec![]);
    let stopped = arr(vec![obj(vec![
        ("gid", s("2")),
        ("status", s("error")),
        ("errorCode", s("1")),
        ("errorMessage", s("Failed")),
    ])]);

    let report = tool.analyze_health(&stats, &active, &stopped, None, "/tmp");
    assert!(report.get("status").unwrap().is_str("unhealthy"));
    let issues = report.get("issues").unwrap().as_array().unwrap();
    assert!(issues[0].get("type").unwrap().is_str("download_error"));
    assert!(issues[0]
        .get("message")
        .unwrap()
        .is_str("Download 2 failed with error code 1: Failed"));
}

#[test]
fn test_analyze_health_low_disk() {
    let tool = CheckHealthTool;
    let stats = stats_zero();
    let active = arr(vec![]);
    let stopped = arr(vec![]);
    let disk = Some(500 * 1024 * 1024u64);

    let report = tool.analyze_health(&stats, &active, &stopped, disk, "/tmp");
    assert!(report.get("status").unwrap().is_str("unhealthy"));
    let issues = report.get("issues").unwrap().as_array().unwrap();
    assert!(issues[0].get("type").unwrap().is_str("low_disk_space"));
}

#[test]
fn test_analyze_health_connected_active_not_stalled() {
    let tool = CheckHealthTool;
    let stats = stats_zero();
    let active = arr(vec![obj(vec![
        ("gid", s("1")),
        ("connections", s("3")),
        ("downloadSpeed", s("1024")),
    ])]);
    let stopped = arr(vec![]);
    let report = tool.analyze_health(&stats, &active, &stopped, None, "/tmp");
    assert!(report.get("status").unwrap().is_str("healthy"));
}

#[test]
fn test_filter_downloads_by_status() {
    let tool = SearchDownloadsTool;
    let downloads = vec![
        obj(vec![("gid", s("1")), ("status", s("active"))]),
        obj(vec![("gid", s("2")), ("status", s("waiting")), ("paused", s("false"))]),
        obj(vec![("gid", s("3")), ("status", s("waiting")), ("paused", s("true"))]),
        obj(vec![("gid", s("4")), ("status", s("complete"))]),
    ];

    // Filter by active
    let args = SearchDownloadsArgs {
        query: None,
        status: Some("active".to_string()),
        keys: None,
    };
    let results = tool.filter_downloads(&downloads, &args);
    assert_eq!(results.len(), 1);
    assert!(results[0].get("gid").unwrap().is_str("1"));

    // Filter by paused
    let args = SearchDownloadsArgs {
        query: None,
        status: Some("paused".to_string()),
        keys: None,
    };
    let results = tool.filter_downloads(&downloads, &args);
    assert_eq!(results.len(), 1);
    assert!(results[0].get("gid").unwrap().is_str("3"));
}

#[test]
fn test_filter_downloads_by_query_path() {
    let tool = SearchDownloadsTool;
    let downloads = vec![
        obj(vec![
            ("gid", s("1")),
            ("files", arr(vec![obj(vec![("path", s("/downloads/movie.mp4")), ("uris", arr(vec![]))])])),
        ]),
        obj(vec![
            ("gid", s("2")),
            ("files", arr(vec![obj(vec![("path", s("/downloads/other.txt")), ("uris", arr(vec![]))])])),
        ]),
    ];

    let args = SearchDownloadsArgs {
        query: Some("movie".to_string()),
        status: None,
        keys: None,
    };
    let results = tool.filter_downloads(&downloads, &args);
    assert_eq!(results.len(), 1);
    assert!(results[0].get("gid").unwrap().is_str("1"));
}

#[test]
fn test_filter_downloads_by_query_uri() {
    let tool = SearchDownloadsTool;
    let downloads = vec![obj(vec![
        ("gid", s("1")),
        (
            "files",
            arr(vec![obj(vec![
                ("path", s("")),
                ("uris", arr(vec![obj(vec![("uri", s("https://example.com/file.zip"))])])),
            ])]),
        ),
    ])];

    let args = SearchDownloadsArgs {
        query: Some("example".to_string()),
        status: None,
        keys: None,
    };
    let results = tool.filter_downloads(&downloads, &args);
    assert_eq!(results.len(), 1);
    assert!(results[0].get("gid").unwrap().is_str("1"));
}

#[test]
fn test_filter_downloads_by_query_bt_name() {
    let tool = SearchDownloadsTool;
    let downloads = vec![obj(vec![
        ("gid", s("1")),
        ("bittorrent", obj(vec![("info", obj(vec![("name", s("Linux ISO"))]))])),
    ])];

    let args = SearchDownloadsArgs {
        query: Some("linux".to_string()),
        status: None,
        keys: None,
    };
    let results = tool.filter_downloads(&downloads, &args);
    assert_eq!(results.len(), 1);
    assert!(results[0].get("gid").unwrap().is_str("1"));
}

#[test]
fn test_filter_downloads_query_case_folds() {
    // The query and the candidate text are both lowered before the
    // substring test, so case never decides a match.
    let tool = SearchDownloadsTool;
    let downloads = vec![obj(vec![
        ("gid", s("1")),
        ("files", arr(vec![obj(vec![("path", s("/downloads/MOVIE.MP4")), ("uris", arr(vec![]))])])),
    ])];
    let args = SearchDownloadsArgs {
        query: Some("Movie".to_string()),
        status: None,
        keys: None,
    };
    let results = tool.filter_downloads(&downloads, &args);
    assert_eq!(results.len(), 1);
}

#[test]
fn test_rule_matches_extension() {
    let rule = Rule {
        name: "Movies".to_string(),
        pattern: None,
        extensions: Some(vec!["mp4".to_string(), "mkv".to_string()]),
        target_dir: "/movies".to_string(),
    };

    assert!(rule.matches("movie.mp4"));
    assert!(rule.matches("movie.MKV"));
    assert!(!rule.matches("document.pdf"));
}

#[test]
fn test_rule_matches_pattern() {
    let rule = Rule {
        name: "Linux ISOs".to_string(),
        pattern: Some("ubuntu-.*\\.iso".to_string()),
        extensions: None,
        target_dir: "/isos".to_string(),
    };

    assert!(rule.matches("ubuntu-22.04-desktop-amd64.iso"));
    assert!(!rule.matches("fedora-36-x86_64.iso"));
}

#[test]
fn test_rule_invalid_pattern_matches_nothing() {
    let rule = Rule {
        name: "Broken".to_string(),
        pattern: Some("foo(bar".to_string()),
        extensions: None,
        target_dir: "/tmp".to_string(),
    };
    assert!(!rule.matches("foobar"));
}
