//! The page-load pipeline: event decisions, the bounded media poll,
//! and the fixed script templates.

use tab_shell::commands::new_tab_created_event;
use tab_shell::events::{title_update_event, UiEvent};
use tab_shell::pipeline::{favicon_fetch_events, media_detection_event, media_host_heuristic,
    media_poll_continue, media_poll_evaluations, on_navigation_events, page_load_plan,
    title_extraction_event, title_fetch_events};
use tab_shell::scripts::{get_media_activity_script, get_media_detection_script,
    get_mute_script, get_title_detection_script, get_title_extraction_script,
    get_unmute_script, get_webview_initialization_script};

#[test]
fn navigation_interceptor_reports_url_then_heuristic_title() {
    let (events, allow) = on_navigation_events(
        &"t1".to_string(),
        &"https://github.com/foo".to_string(),
    );
    assert!(allow);
    assert_eq!(events.len(), 2);
    match &events[0] {
        UiEvent::UrlChanged { tab_id, url } => {
            assert_eq!(tab_id, "t1");
            assert_eq!(url, "https://github.com/foo");
            assert_eq!(events[0].event_name(), "webview-url-changed");
        }
        other => panic!("expected a URL event, got {:?}", other),
    }
    match &events[1] {
        UiEvent::TitleChanged { tab_id, title } => {
            assert_eq!(tab_id, "t1");
            assert_eq!(title, "GitHub");
            assert_eq!(events[1].event_name(), "webview-title-changed");
        }
        other => panic!("expected a title event, got {:?}", other),
    }
}

#[test]
fn media_heuristic_matches_the_allow_list() {
    assert!(media_host_heuristic("https://www.youtube.com/watch?v=x"));
    assert!(media_host_heuristic("https://vimeo.com/123"));
    assert!(media_host_heuristic("https://soundcloud.com/a/b"));
    assert!(!media_host_heuristic("https://example.com"));
}

#[test]
fn media_detection_event_requires_successful_evaluation() {
    let got = media_detection_event(
        &"t1".to_string(),
        &"https://www.youtube.com/watch".to_string(),
        true,
    );
    match got {
        Some(UiEvent::AudioChanged { tab_id, has_audio, is_audio_muted }) => {
            assert_eq!(tab_id, "t1");
            assert!(has_audio);
            assert!(!is_audio_muted);
        }
        other => panic!("expected an audio event, got {:?}", other),
    }
    assert!(media_detection_event(
        &"t1".to_string(),
        &"https://www.youtube.com/watch".to_string(),
        false,
    )
    .is_none());
}

#[test]
fn page_load_plan_fetches_only_for_network_urls() {
    let net = page_load_plan(&"https://example.com".to_string());
    assert_eq!(net.settle_delay_ms, 100);
    assert_eq!(net.title_extraction_delay_ms, 1000);
    assert!(net.eval_title_script && net.eval_media_script && net.schedule_media_poll);
    assert!(net.fetch_favicon && net.fetch_title);

    let blank = page_load_plan(&"about:blank".to_string());
    assert!(blank.eval_title_script && blank.schedule_media_poll);
    assert!(!blank.fetch_favicon && !blank.fetch_title);
}

#[test]
fn media_poll_runs_to_the_cap_when_the_surface_lives() {
    let outcomes = vec![true; 150];
    assert_eq!(media_poll_evaluations(&outcomes), 100);
    assert!(media_poll_continue(99));
    assert!(!media_poll_continue(100));
}

#[test]
fn media_poll_stops_at_the_first_failed_access() {
    let mut outcomes = vec![true; 100];
    outcomes[5] = false;
    // Evaluations 1..=5 succeed, the sixth fails, none follow.
    assert_eq!(media_poll_evaluations(&outcomes), 6);
    let gone = vec![false; 100];
    assert_eq!(media_poll_evaluations(&gone), 1);
}

#[test]
fn delayed_title_extraction_emits_the_heuristic_title() {
    let url = "https://github.com/foo".to_string();
    let got = title_extraction_event(&"t1".to_string(), true, Some(&url));
    match got {
        Some(UiEvent::TitleChanged { tab_id, title }) => {
            assert_eq!(tab_id, "t1");
            assert_eq!(title, "GitHub");
        }
        other => panic!("expected a title event, got {:?}", other),
    }
    assert!(title_extraction_event(&"t1".to_string(), false, Some(&url)).is_none());
    assert!(title_extraction_event(&"t1".to_string(), true, None).is_none());
}

#[test]
fn favicon_events_cover_success_failure_and_connection_errors() {
    let ok = favicon_fetch_events(&"t1".to_string(), &Ok("data:image/png;base64,AA==".to_string()));
    assert_eq!(ok.len(), 1);
    match &ok[0] {
        UiEvent::FaviconChanged { tab_id, favicon } => {
            assert_eq!(tab_id, "t1");
            assert_eq!(favicon.as_deref(), Some("data:image/png;base64,AA=="));
        }
        other => panic!("expected a favicon event, got {:?}", other),
    }

    let plain = favicon_fetch_events(&"t1".to_string(), &Err("no icon".to_string()));
    assert_eq!(plain.len(), 1);
    assert!(matches!(&plain[0], UiEvent::FaviconChanged { favicon: None, .. }));

    let conn = favicon_fetch_events(&"t1".to_string(), &Err("connection refused".to_string()));
    assert_eq!(conn.len(), 2);
    match &conn[1] {
        UiEvent::LoadError { tab_id, error_message } => {
            assert_eq!(tab_id, "t1");
            assert_eq!(error_message, "Ошибка загрузки страницы: connection refused");
            assert_eq!(conn[1].event_name(), "webview-load-error");
        }
        other => panic!("expected a load-error event, got {:?}", other),
    }
}

#[test]
fn title_fetch_failure_keeps_the_last_title() {
    let ok = title_fetch_events(&"t1".to_string(), &Ok("Real Title".to_string()));
    assert_eq!(ok.len(), 1);
    assert!(matches!(&ok[0], UiEvent::TitleChanged { .. }));
    let err = title_fetch_events(&"t1".to_string(), &Err("boom".to_string()));
    assert!(err.is_empty());
}

#[test]
fn title_update_relays_the_page_title() {
    let e = title_update_event(&"t1".to_string(), &"From Page".to_string());
    match e {
        UiEvent::TitleChanged { tab_id, title } => {
            assert_eq!(tab_id, "t1");
            assert_eq!(title, "From Page");
        }
        other => panic!("expected a title event, got {:?}", other),
    }
}

#[test]
fn new_tab_created_event_carries_the_loading_title() {
    let e = new_tab_created_event(
        &"tab_5".to_string(),
        &"https://example.com".to_string(),
        &"tab-tab_5".to_string(),
    );
    match e {
        UiEvent::NewTabCreated { tab_id, url, title, webview_label } => {
            assert_eq!(tab_id, "tab_5");
            assert_eq!(url, "https://example.com");
            assert_eq!(title, "Загрузка...");
            assert_eq!(webview_label, "tab-tab_5");
        }
        other => panic!("expected a new-tab event, got {:?}", other),
    }
}

#[test]
fn script_templates_are_nonempty_and_distinct() {
    assert!(!get_webview_initialization_script().is_empty());
    assert!(!get_title_detection_script().is_empty());
    assert!(!get_media_detection_script().is_empty());
    assert!(!get_media_activity_script().is_empty());
    assert!(!get_title_extraction_script().is_empty());
    assert_ne!(get_mute_script(), get_unmute_script());
    assert_ne!(get_media_detection_script(), get_media_activity_script());
    assert!(get_mute_script().contains("muted = true"));
    assert!(get_unmute_script().contains("muted = false"));
}
