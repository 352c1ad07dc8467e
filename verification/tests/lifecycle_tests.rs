//! Lifecycle behavior: registry truth, labels, visibility, navigation.

use std::collections::HashMap;

use tab_shell::geometry::{SurfaceRect, WindowSize, compute_rect};
use tab_shell::lifecycle::{ShellError, SurfaceCommand, close_tab_webview_impl,
    create_tab_webview_impl, hide_all_webviews_impl, make_label, mute_webview_impl,
    navigate_webview_impl, resize_all_impl, resolve_surface_error, show_tab_webview_impl,
    unmute_webview_impl};
use tab_shell::registry::WebviewState;
use tab_shell::scripts::{get_mute_script, get_unmute_script};

fn window() -> WindowSize {
    WindowSize { width: 1000, height: 800 }
}

fn created(state: &mut WebviewState, tab: &str, url: &str) -> String {
    let plan = create_tab_webview_impl(
        state,
        &tab.to_string(),
        &url.to_string(),
        window(),
    )
    .expect("create failed");
    plan.label
}

/// Applies a command list to a label-keyed visibility map, as the host
/// would.
fn apply(vis: &mut HashMap<String, bool>, cmds: &[SurfaceCommand]) {
    for cmd in cmds {
        match cmd {
            SurfaceCommand::Hide { label } => {
                vis.insert(label.clone(), false);
            }
            SurfaceCommand::Show { label } => {
                vis.insert(label.clone(), true);
            }
            SurfaceCommand::Destroy { label } => {
                vis.remove(label);
            }
            _ => {}
        }
    }
}

#[test]
fn create_registers_deterministic_label() {
    let mut state = WebviewState::new();
    let l1 = created(&mut state, "alpha", "https://example.com");
    let l2 = created(&mut state, "beta", "about:blank");
    assert_eq!(l1, "tab-alpha");
    assert_eq!(l2, "tab-beta");
    assert_ne!(l1, l2);
    assert_eq!(state.lookup(&"alpha".to_string()), Some("tab-alpha".to_string()));
    assert_eq!(state.lookup(&"beta".to_string()), Some("tab-beta".to_string()));
    assert_eq!(make_label(&"alpha".to_string()), "tab-alpha");
}

#[test]
fn create_rejects_malformed_web_url() {
    let mut state = WebviewState::new();
    let r = create_tab_webview_impl(
        &mut state,
        &"bad".to_string(),
        &"https://[not a url".to_string(),
        window(),
    );
    assert!(matches!(r, Err(ShellError::InvalidUrl)));
    assert!(state.lookup(&"bad".to_string()).is_none());
}

#[test]
fn close_removes_mapping_whatever_host_says() {
    let mut state = WebviewState::new();
    let label = created(&mut state, "alpha", "https://example.com");
    let cmd = close_tab_webview_impl(&mut state, &"alpha".to_string());
    match cmd {
        Some(SurfaceCommand::Destroy { label: l }) => assert_eq!(l, label),
        other => panic!("expected a destroy command, got {:?}", other),
    }
    // Host destruction failing later never resurrects the entry.
    assert!(state.lookup(&"alpha".to_string()).is_none());
    // Closing again finds nothing and asks for nothing.
    assert!(close_tab_webview_impl(&mut state, &"alpha".to_string()).is_none());
}

#[test]
fn show_leaves_at_most_one_surface_visible() {
    let mut state = WebviewState::new();
    let l1 = created(&mut state, "t1", "https://example.com");
    let l2 = created(&mut state, "t2", "https://example.org");
    let l3 = created(&mut state, "t3", "https://example.net");

    let mut vis: HashMap<String, bool> = HashMap::new();
    vis.insert(l1.clone(), false);
    vis.insert(l2.clone(), true);
    vis.insert(l3.clone(), true);

    let cmds = show_tab_webview_impl(&state, &"t1".to_string(), window());
    apply(&mut vis, &cmds);
    assert_eq!(vis.get(&l1), Some(&true));
    assert_eq!(vis.get(&l2), Some(&false));
    assert_eq!(vis.get(&l3), Some(&false));
}

#[test]
fn show_of_blank_tab_only_hides_others() {
    let mut state = WebviewState::new();
    let l1 = created(&mut state, "t1", "https://example.com");
    let mut vis: HashMap<String, bool> = HashMap::new();
    vis.insert(l1.clone(), true);
    // "t9" has no surface: a blank tab.
    let cmds = show_tab_webview_impl(&state, &"t9".to_string(), window());
    assert_eq!(cmds.len(), 1);
    apply(&mut vis, &cmds);
    assert_eq!(vis.get(&l1), Some(&false));
}

#[test]
fn show_reapplies_geometry() {
    let mut state = WebviewState::new();
    let l1 = created(&mut state, "t1", "https://example.com");
    let cmds = show_tab_webview_impl(&state, &"t1".to_string(), window());
    let last = cmds.last().expect("no commands");
    match last {
        SurfaceCommand::SetRect { label, rect } => {
            assert_eq!(label, &l1);
            assert_eq!(rect.x, 0);
            assert_eq!(rect.y, 80);
            assert_eq!(rect.width, 1000);
            assert_eq!(rect.height, 720);
        }
        other => panic!("expected geometry command, got {:?}", other),
    }
}

#[test]
fn hide_all_hides_every_surface() {
    let mut state = WebviewState::new();
    let l1 = created(&mut state, "t1", "https://example.com");
    let l2 = created(&mut state, "t2", "https://example.org");
    let mut vis: HashMap<String, bool> = HashMap::new();
    vis.insert(l1.clone(), true);
    vis.insert(l2.clone(), true);
    let cmds = hide_all_webviews_impl(&state);
    assert_eq!(cmds.len(), 2);
    apply(&mut vis, &cmds);
    assert_eq!(vis.get(&l1), Some(&false));
    assert_eq!(vis.get(&l2), Some(&false));
}

#[test]
fn navigate_checks_scheme_and_target() {
    let mut state = WebviewState::new();
    let label = created(&mut state, "t1", "https://example.com");

    let bad = navigate_webview_impl(&state, &"t1".to_string(), &"ftp://example.com".to_string());
    match bad {
        Err(ShellError::UnsupportedNavScheme { url }) => assert_eq!(url, "ftp://example.com"),
        other => panic!("expected scheme rejection, got {:?}", other),
    }

    let ok = navigate_webview_impl(&state, &"t1".to_string(), &"https://example.com".to_string());
    match ok {
        Ok(SurfaceCommand::NavigateTo { label: l, url }) => {
            assert_eq!(l, label);
            assert_eq!(url, "https://example.com");
        }
        other => panic!("expected navigation command, got {:?}", other),
    }

    let missing = navigate_webview_impl(
        &state,
        &"nope".to_string(),
        &"https://example.com".to_string(),
    );
    assert!(matches!(missing, Err(ShellError::TabNotFound)));

    // The scheme is checked before the lookup: a bad scheme is rejected
    // even for a tab that was never registered.
    let bad_scheme_unknown_tab = navigate_webview_impl(
        &state,
        &"nope".to_string(),
        &"ftp://example.com".to_string(),
    );
    match bad_scheme_unknown_tab {
        Err(ShellError::UnsupportedNavScheme { url }) => assert_eq!(url, "ftp://example.com"),
        other => panic!("expected scheme rejection, got {:?}", other),
    }

    // A supported scheme that still fails to parse is an invalid URL.
    let unparsable = navigate_webview_impl(
        &state,
        &"t1".to_string(),
        &"https://[not a url".to_string(),
    );
    assert!(matches!(unparsable, Err(ShellError::InvalidUrl)));
}

#[test]
fn compute_rect_offsets_by_chrome_height() {
    let r = compute_rect(WindowSize { width: 1000, height: 800 }, 89);
    assert_eq!(
        r,
        SurfaceRect { x: 0, y: 89, width: 1000, height: 711 }
    );
}

#[test]
fn resize_applies_one_rect_to_all() {
    let mut state = WebviewState::new();
    let l1 = created(&mut state, "t1", "https://example.com");
    let l2 = created(&mut state, "t2", "https://example.org");
    let cmds = resize_all_impl(&state, WindowSize { width: 640, height: 480 });
    assert_eq!(cmds.len(), 2);
    let mut labels = Vec::new();
    for cmd in &cmds {
        match cmd {
            SurfaceCommand::SetRect { label, rect } => {
                labels.push(label.clone());
                assert_eq!((rect.x, rect.y, rect.width, rect.height), (0, 80, 640, 400));
            }
            other => panic!("expected geometry command, got {:?}", other),
        }
    }
    assert_eq!(labels, vec![l1, l2]);
}

#[test]
fn mute_and_unmute_address_the_right_surface() {
    let mut state = WebviewState::new();
    let label = created(&mut state, "t1", "https://example.com");
    match mute_webview_impl(&state, &"t1".to_string()) {
        Ok(SurfaceCommand::Eval { label: l, script }) => {
            assert_eq!(l, label);
            assert_eq!(script, get_mute_script());
        }
        other => panic!("expected eval command, got {:?}", other),
    }
    match unmute_webview_impl(&state, &"t1".to_string()) {
        Ok(SurfaceCommand::Eval { label: l, script }) => {
            assert_eq!(l, label);
            assert_eq!(script, get_unmute_script());
        }
        other => panic!("expected eval command, got {:?}", other),
    }
    assert_ne!(get_mute_script(), get_unmute_script());
    assert!(matches!(
        mute_webview_impl(&state, &"zz".to_string()),
        Err(ShellError::TabNotFound)
    ));
}

#[test]
fn empty_registry_is_harmless_to_broadcasts() {
    let state = WebviewState::new();
    assert!(show_tab_webview_impl(&state, &"any".to_string(), window()).is_empty());
    assert!(hide_all_webviews_impl(&state).is_empty());
    assert!(resize_all_impl(&state, window()).is_empty());
    assert!(state.all_handles().is_empty());
}

#[test]
fn surface_error_adjudication() {
    assert!(matches!(
        resolve_surface_error(false, false),
        Some(ShellError::TabNotFound)
    ));
    assert!(matches!(
        resolve_surface_error(true, false),
        Some(ShellError::WebviewNotFound)
    ));
    assert!(resolve_surface_error(true, true).is_none());
}

#[test]
fn error_messages_match_the_ui_strings() {
    assert_eq!(ShellError::TabNotFound.message(), "Tab not found");
    assert_eq!(ShellError::WebviewNotFound.message(), "Webview not found");
    assert_eq!(
        ShellError::UnsupportedNavScheme { url: "ftp://x".to_string() }.message(),
        "Unsupported URL scheme for navigation: ftp://x"
    );
    assert_eq!(ShellError::InvalidUrl.message(), "Invalid URL");
    assert_eq!(ShellError::FaviconUnavailable.message(), "Failed to fetch favicon.");
    assert_eq!(ShellError::UnsupportedFetchScheme.message(), "Unsupported URL scheme");
    assert_eq!(ShellError::TitleUnavailable.message(), "Unable to determine title");
}

#[test]
fn registry_register_overwrites_and_snapshots() {
    let mut state = WebviewState::new();
    state.register(&"a".to_string(), &"tab-a".to_string());
    state.register(&"b".to_string(), &"tab-b".to_string());
    state.register(&"a".to_string(), &"tab-a2".to_string());
    assert_eq!(state.len(), 2);
    assert_eq!(state.lookup(&"a".to_string()), Some("tab-a2".to_string()));
    assert_eq!(state.remove(&"a".to_string()), Some("tab-a2".to_string()));
    assert_eq!(state.remove(&"a".to_string()), None);
    let handles = state.all_handles();
    assert_eq!(handles, vec!["tab-b".to_string()]);
}

#[test]
fn create_then_immediate_close_leaves_clean_state() {
    let mut state = WebviewState::new();
    let label = created(&mut state, "t1", "https://example.com");
    let destroy = close_tab_webview_impl(&mut state, &"t1".to_string());
    assert!(destroy.is_some());
    assert!(state.lookup(&"t1".to_string()).is_none());
    assert_eq!(state.len(), 0);
    // In-flight pipeline work against the removed surface fails cleanly:
    // every later surface access reports failure and the poll stops at
    // the first one without touching the registry.
    let outcomes = vec![false; 100];
    let evals = tab_shell::pipeline::media_poll_evaluations(&outcomes);
    assert_eq!(evals, 1);
    assert_eq!(state.len(), 0);
    // A late show of the closed tab is a harmless hide-others pass.
    let cmds = show_tab_webview_impl(&state, &"t1".to_string(), window());
    assert!(cmds.is_empty());
    let _ = label;
}
