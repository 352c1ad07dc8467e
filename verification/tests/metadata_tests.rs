//! Metadata resolution: heuristic titles, page-title extraction, and
//! the favicon policy, exercised with the real URL and base64 crates.

use tab_shell::commands::{home_navigation_url, new_tab_id, webview_info_line,
    webview_info_lines};
use tab_shell::favicon::{favicon_content_type, favicon_data_uri, favicon_fetch_plan,
    favicon_needs_fallback, favicon_resolution, FaviconSource};
use tab_shell::html::{extract_title, page_title_from_body, page_title_request_allowed};
use tab_shell::lifecycle::ShellError;
use tab_shell::urlinfo::get_title_from_url;

#[test]
fn heuristic_title_uses_fixed_table_then_host() {
    assert_eq!(get_title_from_url("about:blank"), "Новая вкладка");
    assert_eq!(get_title_from_url("https://github.com/foo"), "GitHub");
    assert_eq!(get_title_from_url("https://www.youtube.com/watch"), "YouTube");
    assert_eq!(get_title_from_url("https://google.com/search"), "Google");
    assert_eq!(get_title_from_url("https://yandex.ru/maps"), "Яндекс");
    assert_eq!(get_title_from_url("https://example.com/a/b"), "example.com");
    assert_eq!(get_title_from_url("not a url at all"), "Новая вкладка");
}

#[test]
fn title_extraction_finds_first_tag_case_insensitively() {
    assert_eq!(
        extract_title("<html><TITLE lang=\"x\">Hello\nWorld</TiTlE></html>"),
        Some("Hello\nWorld".to_string())
    );
    assert_eq!(
        extract_title("<title>First</title><title>Second</title>"),
        Some("First".to_string())
    );
    assert_eq!(extract_title("<body>no title here</body>"), None);
    assert_eq!(extract_title("<title>never closed"), None);
}

#[test]
fn page_title_trims_and_falls_back_to_host() {
    let ok = page_title_from_body(
        &"https://example.com/page".to_string(),
        &"<html><title>  Spaced Out \n</title></html>".to_string(),
    );
    assert_eq!(ok.unwrap(), "Spaced Out");

    let host = page_title_from_body(
        &"https://example.com/page".to_string(),
        &"<html><title>   </title></html>".to_string(),
    );
    assert_eq!(host.unwrap(), "example.com");

    let missing = page_title_from_body(
        &"https://example.com/page".to_string(),
        &"<html></html>".to_string(),
    );
    assert_eq!(missing.unwrap(), "example.com");

    let broken = page_title_from_body(
        &"not a url".to_string(),
        &"<html></html>".to_string(),
    );
    assert!(matches!(broken, Err(ShellError::TitleUnavailable)));
}

#[test]
fn page_title_fetch_gate_accepts_network_urls_only() {
    assert!(page_title_request_allowed(&"https://example.com".to_string()).is_ok());
    assert!(page_title_request_allowed(&"http://example.com".to_string()).is_ok());
    assert!(matches!(
        page_title_request_allowed(&"ftp://example.com".to_string()),
        Err(ShellError::UnsupportedFetchScheme)
    ));
}

#[test]
fn favicon_plan_builds_both_sources() {
    let plan = favicon_fetch_plan(&"https://example.com/deep/page.html".to_string()).unwrap();
    assert_eq!(plan.primary_url, "https://example.com/favicon.ico");
    assert_eq!(plan.fallback_url, "https://icons.duckduckgo.com/ip3/example.com.ico");

    let bad = favicon_fetch_plan(&"definitely not a url".to_string());
    assert!(matches!(bad, Err(ShellError::InvalidUrl)));

    // Parses, but no icon path can be resolved against it.
    let unjoinable = favicon_fetch_plan(&"mailto:user@example.com".to_string());
    assert!(matches!(unjoinable, Err(ShellError::FaviconUrlBuildFailed)));
    assert_eq!(
        ShellError::FaviconUrlBuildFailed.message(),
        "Failed to build favicon URL"
    );
}

#[test]
fn favicon_fallback_policy_is_two_step() {
    assert!(!favicon_needs_fallback(true));
    assert!(favicon_needs_fallback(false));
    assert!(matches!(favicon_resolution(true, false), Ok(FaviconSource::PrimaryIcon)));
    assert!(matches!(favicon_resolution(true, true), Ok(FaviconSource::PrimaryIcon)));
    assert!(matches!(favicon_resolution(false, true), Ok(FaviconSource::LookupService)));
    assert!(matches!(
        favicon_resolution(false, false),
        Err(ShellError::FaviconUnavailable)
    ));
}

#[test]
fn favicon_data_uri_encodes_bytes() {
    let uri = favicon_data_uri(&"image/png".to_string(), &vec![104, 101, 108, 108, 111]);
    assert_eq!(uri, "data:image/png;base64,aGVsbG8=");
    let empty = favicon_data_uri(&"image/x-icon".to_string(), &Vec::new());
    assert_eq!(empty, "data:image/x-icon;base64,");
}

#[test]
fn favicon_content_type_strips_parameters() {
    let full = "image/png; charset=binary".to_string();
    assert_eq!(favicon_content_type(Some(&full)), "image/png");
    let bare = "image/gif".to_string();
    assert_eq!(favicon_content_type(Some(&bare)), "image/gif");
    assert_eq!(favicon_content_type(None), "image/x-icon");
}

#[test]
fn generated_tab_ids_carry_the_timestamp() {
    assert_eq!(new_tab_id(0), "tab_0");
    assert_eq!(new_tab_id(123), "tab_123");
    assert_eq!(new_tab_id(1700000000123456789), "tab_1700000000123456789");
}

#[test]
fn home_navigation_prefers_the_override() {
    assert_eq!(
        home_navigation_url(Some("https://start.example".to_string())),
        "https://start.example"
    );
    assert_eq!(home_navigation_url(None), "https://www.google.com");
}

#[test]
fn info_lines_report_each_surface() {
    assert_eq!(
        webview_info_line(&"t1".to_string(), &"tab-t1".to_string(), true),
        "Tab: t1, Label: tab-t1, Exists: true"
    );
    let entries = vec![
        ("a".to_string(), "tab-a".to_string()),
        ("b".to_string(), "tab-b".to_string()),
    ];
    let lines = webview_info_lines(&entries, &vec![true, false]);
    assert_eq!(
        lines,
        vec![
            "Tab: a, Label: tab-a, Exists: true".to_string(),
            "Tab: b, Label: tab-b, Exists: false".to_string(),
        ]
    );
}
