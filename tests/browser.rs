use causeway::browser::{
    exe_name_or_default, extract_exe_name, find_target_in, format_tab_list, launch_args,
    listing_names_process, parse_targets, select_target, TargetInfo,
};
use causeway::config::BrowserConfig;
use causeway::BrowserError;

const LISTING: &str = r#"[
  {"type":"service_worker","id":"W","webSocketDebuggerUrl":"ws://w"},
  {"type":"page","id":"A","title":"First","url":"https://a.example/","webSocketDebuggerUrl":"ws://a"},
  {"type":"page","id":"B","url":"https://b.example/","webSocketDebuggerUrl":"ws://b"}
]"#;

#[test]
fn first_page_target_is_selected() {
    assert_eq!(find_target_in(LISTING, None).ok().unwrap(), "ws://a");
}

#[test]
fn wanted_target_is_selected_by_id() {
    assert_eq!(find_target_in(LISTING, Some("B")).ok().unwrap(), "ws://b");
    assert!(matches!(find_target_in(LISTING, Some("W")), Err(BrowserError::Timeout)));
    assert!(matches!(find_target_in(LISTING, Some("Z")), Err(BrowserError::Timeout)));
}

#[test]
fn unreadable_listing_is_timeout() {
    assert!(matches!(find_target_in("not json", None), Err(BrowserError::Timeout)));
    assert!(matches!(find_target_in("[]", None), Err(BrowserError::Timeout)));
}

#[test]
fn page_without_debugger_url_is_skipped() {
    let t = parse_targets(r#"[{"type":"page","id":"X"},{"type":"page","webSocketDebuggerUrl":"ws://y"}]"#).unwrap();
    assert_eq!(t.len(), 2);
    assert_eq!(select_target(&t, None).unwrap(), "ws://y");
    assert_eq!(select_target(&t, Some("")).unwrap(), "ws://y");
}

#[test]
fn tab_list_shows_pages_only() {
    let t = parse_targets(LISTING).unwrap();
    assert_eq!(
        format_tab_list(&t),
        "[A] First\n  https://a.example/\n\n[B] (untitled)\n  https://b.example/\n\n"
    );
    assert_eq!(format_tab_list(&Vec::new()), "No open tabs found");
}

#[test]
fn tab_list_defaults() {
    let t = vec![TargetInfo { kind: Some("page".to_string()), id: None, title: None, url: None, ws_url: None }];
    assert_eq!(format_tab_list(&t), "[?] (untitled)\n  ?\n\n");
}

fn config(dedicated: bool, restore: bool, extensions: Vec<String>) -> BrowserConfig {
    BrowserConfig {
        executable: "/usr/bin/brave".to_string(),
        port: 9222,
        restore_session: restore,
        dedicated_profile: dedicated,
        extensions,
    }
}

#[test]
fn launch_args_minimal() {
    assert_eq!(
        launch_args(&config(false, false, Vec::new()), "/tmp/p"),
        vec!["--remote-debugging-port=9222", "--no-first-run", "--no-default-browser-check"]
    );
}

#[test]
fn launch_args_full() {
    let exts = vec!["/e/one".to_string(), "/e/two".to_string()];
    assert_eq!(
        launch_args(&config(true, true, exts), "/tmp/p"),
        vec![
            "--remote-debugging-port=9222",
            "--no-first-run",
            "--no-default-browser-check",
            "--user-data-dir=/tmp/p",
            "--restore-last-session",
            "--load-extension=/e/one,/e/two",
        ]
    );
}

#[test]
fn exe_name_from_path() {
    assert_eq!(extract_exe_name("/opt/brave/brave-browser"), "brave-browser");
    assert_eq!(extract_exe_name("/"), "brave.exe");
    assert_eq!(exe_name_or_default(None), "brave.exe");
    assert_eq!(exe_name_or_default(Some("chrome.exe".to_string())), "chrome.exe");
}

#[test]
fn process_listing_search() {
    let listing = "brave.exe    1234 Console    1    200,000 K\n";
    assert!(listing_names_process(listing, "brave.exe"));
    assert!(!listing_names_process(listing, "chrome.exe"));
    assert!(listing_names_process("", ""));
    assert!(!listing_names_process("ab", "abc"));
}
