//! The page-load pipeline: what runs after every completed navigation.
//! Each decision — which events to emit, which fetches to spawn, when
//! the bounded media poll stops — is a checked function here; the
//! unverified shell only sleeps, evaluates scripts and fetches.

use vstd::prelude::*;
use crate::events::UiEvent;
use crate::text::{contains_seq, contains_str};
use crate::urlinfo::{check_network_url, get_title_from_url, is_network_url, title_from_url_spec};

verus! {

/// Milliseconds the pipeline waits before its first script evaluation,
/// letting the page's structure settle.
pub const SETTLE_DELAY_MS: u64 = 100;

/// Milliseconds the delayed title-extraction pass waits.
pub const TITLE_EXTRACTION_DELAY_MS: u64 = 1000;

/// Seconds between two media-activity evaluations.
pub const MEDIA_CHECK_INTERVAL_SECS: u64 = 3;

/// Most media-activity evaluations one poll ever performs.
pub const MAX_MEDIA_CHECKS: u32 = 100;

/// The URL names a host known to embed playing media.
pub open spec fn media_host_spec(u: Seq<char>) -> bool {
    contains_seq(u, "youtube.com"@) || contains_seq(u, "vimeo.com"@)
        || contains_seq(u, "soundcloud.com"@)
}

/// The audio-presence heuristic: true exactly for the fixed allow-list
/// of media-hosting domains. An approximation, not exact detection.
pub fn media_host_heuristic(url: &str) -> (r: bool)
    ensures
        r == media_host_spec(url@),
{
    contains_str(url, "youtube.com") || contains_str(url, "vimeo.com")
        || contains_str(url, "soundcloud.com")
}

/// What the navigation interceptor does before a navigation commits:
/// report the new URL, report a heuristic title derived from it, and
/// always allow the navigation.
pub fn on_navigation_events(tab_id: &String, url: &String) -> (r: (Vec<UiEvent>, bool))
    ensures
        r.1 == true,
        r.0@.len() == 2,
        r.0@[0] matches UiEvent::UrlChanged { tab_id: t, url: u }
            && t@ == tab_id@ && u@ == url@,
        r.0@[1] matches UiEvent::TitleChanged { tab_id: t, title: ti }
            && t@ == tab_id@ && ti@ == title_from_url_spec(url@),
{
    let mut events: Vec<UiEvent> = Vec::new();
    events.push(UiEvent::UrlChanged { tab_id: tab_id.clone(), url: url.clone() });
    let title = get_title_from_url(url.as_str());
    events.push(UiEvent::TitleChanged { tab_id: tab_id.clone(), title });
    (events, true)
}

/// The audio event emitted after the media-detection script ran: only
/// when the evaluation succeeded, with the domain-based heuristic flag
/// and sound not muted.
pub fn media_detection_event(tab_id: &String, url: &String, eval_ok: bool) -> (r: Option<
    UiEvent,
>)
    ensures
        match r {
            Some(e) => eval_ok
                && (e matches UiEvent::AudioChanged { tab_id: t, has_audio, is_audio_muted }
                    && t@ == tab_id@ && has_audio == media_host_spec(url@)
                    && is_audio_muted == false),
            None => !eval_ok,
        },
{
    if eval_ok {
        Some(UiEvent::AudioChanged {
            tab_id: tab_id.clone(),
            has_audio: media_host_heuristic(url.as_str()),
            is_audio_muted: false,
        })
    } else {
        None
    }
}

/// What one completed page load schedules.
#[derive(Debug, Clone)]
pub struct PageLoadPlan {
    /// Wait this long before the first script evaluation.
    pub settle_delay_ms: u64,
    /// Evaluate the title-detection script.
    pub eval_title_script: bool,
    /// Evaluate the media-detection script.
    pub eval_media_script: bool,
    /// Start the bounded periodic media poll.
    pub schedule_media_poll: bool,
    /// Run the delayed title-extraction pass after this long.
    pub title_extraction_delay_ms: u64,
    /// Spawn the one-shot favicon fetch.
    pub fetch_favicon: bool,
    /// Spawn the one-shot real-title fetch.
    pub fetch_title: bool,
}

/// Plans a page-load pipeline run for the URL the surface reports:
/// scripts and the poll always run; the two network fetches are
/// spawned only for network URLs, never for the internal blank page.
pub fn page_load_plan(url: &String) -> (r: PageLoadPlan)
    ensures
        r.settle_delay_ms == SETTLE_DELAY_MS,
        r.eval_title_script,
        r.eval_media_script,
        r.schedule_media_poll,
        r.title_extraction_delay_ms == TITLE_EXTRACTION_DELAY_MS,
        r.fetch_favicon == is_network_url(url@),
        r.fetch_title == is_network_url(url@),
{
    let network = check_network_url(url.as_str());
    PageLoadPlan {
        settle_delay_ms: SETTLE_DELAY_MS,
        eval_title_script: true,
        eval_media_script: true,
        schedule_media_poll: true,
        title_extraction_delay_ms: TITLE_EXTRACTION_DELAY_MS,
        fetch_favicon: network,
        fetch_title: network,
    }
}

/// Whether the periodic media poll, having already performed
/// `checks_done` evaluations that all succeeded, performs another.
pub fn media_poll_continue(checks_done: u32) -> (r: bool)
    ensures
        r == (checks_done < MAX_MEDIA_CHECKS),
{
    checks_done < MAX_MEDIA_CHECKS
}

/// How many evaluations the periodic media poll performs when the
/// successive surface accesses come out as `outcomes` says: it stops
/// right after the first failed access, and never exceeds the cap.
pub fn media_poll_evaluations(outcomes: &Vec<bool>) -> (n: usize)
    requires
        outcomes@.len() >= MAX_MEDIA_CHECKS,
    ensures
        1 <= n <= MAX_MEDIA_CHECKS,
        forall|i: int| 0 <= i < n - 1 ==> outcomes@[i],
        n < MAX_MEDIA_CHECKS ==> !outcomes@[n - 1],
{
    let mut n: usize = 0;
    let mut stopped = false;
    while n < 100 && !stopped
        invariant
            outcomes@.len() >= 100,
            n <= 100,
            !stopped ==> forall|i: int| 0 <= i < n ==> outcomes@[i],
            stopped ==> 1 <= n && !outcomes@[n - 1]
                && (forall|i: int| 0 <= i < n - 1 ==> outcomes@[i]),
        decreases 100 - n + (if stopped { 0int } else { 1int }),
    {
        let ok = outcomes[n];
        n += 1;
        if !ok {
            stopped = true;
        }
    }
    n
}

/// The event the delayed title-extraction pass emits: only when the
/// extraction script ran and the surface still reports a URL, and then
/// always the URL-derived heuristic title.
pub fn title_extraction_event(
    tab_id: &String,
    eval_ok: bool,
    current_url: Option<&String>,
) -> (r: Option<UiEvent>)
    ensures
        match r {
            Some(e) => eval_ok && current_url is Some
                && (e matches UiEvent::TitleChanged { tab_id: t, title: ti }
                    && t@ == tab_id@
                    && ti@ == title_from_url_spec(current_url.unwrap()@)),
            None => !eval_ok || current_url is None,
        },
{
    if !eval_ok {
        return None;
    }
    match current_url {
        Some(u) => {
            let title = get_title_from_url(u.as_str());
            Some(UiEvent::TitleChanged { tab_id: tab_id.clone(), title })
        },
        None => None,
    }
}

/// The failure message looks connection- or timeout-related, so the
/// load as a whole is reported broken.
pub open spec fn connection_failure_spec(msg: Seq<char>) -> bool {
    contains_seq(msg, "connection"@) || contains_seq(msg, "timeout"@)
}

/// The events emitted once the favicon fetch settles: the favicon
/// itself (or null on failure), plus a load-error report when the
/// failure looks connection- or timeout-related.
pub fn favicon_fetch_events(tab_id: &String, outcome: &Result<String, String>) -> (r: Vec<
    UiEvent,
>)
    ensures
        match outcome {
            Ok(data) => r@.len() == 1
                && (r@[0] matches UiEvent::FaviconChanged { tab_id: t, favicon }
                    && t@ == tab_id@ && (favicon matches Some(d) && d@ == data@)),
            Err(msg) => {
                &&& r@.len() == (if connection_failure_spec(msg@) { 2int } else { 1int })
                &&& (r@[0] matches UiEvent::FaviconChanged { tab_id: t, favicon }
                    && t@ == tab_id@ && favicon is None)
                &&& (connection_failure_spec(msg@)
                    ==> (r@[1] matches UiEvent::LoadError { tab_id: t, error_message }
                        && t@ == tab_id@
                        && error_message@ == "Ошибка загрузки страницы: "@ + msg@))
            },
        },
{
    let mut events: Vec<UiEvent> = Vec::new();
    match outcome {
        Ok(data) => {
            events.push(UiEvent::FaviconChanged {
                tab_id: tab_id.clone(),
                favicon: Some(data.clone()),
            });
        },
        Err(msg) => {
            events.push(UiEvent::FaviconChanged { tab_id: tab_id.clone(), favicon: None });
            if contains_str(msg.as_str(), "connection") || contains_str(msg.as_str(), "timeout")
            {
                let mut m = "Ошибка загрузки страницы: ".to_owned();
                m.append(msg.as_str());
                events.push(UiEvent::LoadError {
                    tab_id: tab_id.clone(),
                    error_message: m,
                });
            }
        },
    }
    events
}

/// The events emitted once the real-title fetch settles: the resolved
/// title on success, nothing on failure — the last heuristic title
/// stands.
pub fn title_fetch_events(tab_id: &String, outcome: &Result<String, String>) -> (r: Vec<UiEvent>)
    ensures
        match outcome {
            Ok(title) => r@.len() == 1
                && (r@[0] matches UiEvent::TitleChanged { tab_id: t, title: ti }
                    && t@ == tab_id@ && ti@ == title@),
            Err(_) => r@.len() == 0,
        },
{
    let mut events: Vec<UiEvent> = Vec::new();
    match outcome {
        Ok(title) => {
            events.push(UiEvent::TitleChanged { tab_id: tab_id.clone(), title: title.clone() });
        },
        Err(_) => {},
    }
    events
}

} // verus!
