//! The UI-facing events the shell emits. The payload fields are typed
//! here; the unverified shell serializes them when it emits.

use vstd::prelude::*;

verus! {

/// One event for the UI layer.
#[derive(Debug, Clone)]
pub enum UiEvent {
    UrlChanged { tab_id: String, url: String },
    TitleChanged { tab_id: String, title: String },
    AudioChanged { tab_id: String, has_audio: bool, is_audio_muted: bool },
    FaviconChanged { tab_id: String, favicon: Option<String> },
    LoadError { tab_id: String, error_message: String },
    NewTabCreated { tab_id: String, url: String, title: String, webview_label: String },
}

impl UiEvent {
    /// The exact event name the UI layer subscribes to.
    pub fn event_name(&self) -> (r: &'static str)
        ensures
            self is UrlChanged ==> r@ == "webview-url-changed"@,
            self is TitleChanged ==> r@ == "webview-title-changed"@,
            self is AudioChanged ==> r@ == "webview-audio-changed"@,
            self is FaviconChanged ==> r@ == "webview-favicon-changed"@,
            self is LoadError ==> r@ == "webview-load-error"@,
            self is NewTabCreated ==> r@ == "new-tab-created"@,
    {
        match self {
            UiEvent::UrlChanged { .. } => "webview-url-changed",
            UiEvent::TitleChanged { .. } => "webview-title-changed",
            UiEvent::AudioChanged { .. } => "webview-audio-changed",
            UiEvent::FaviconChanged { .. } => "webview-favicon-changed",
            UiEvent::LoadError { .. } => "webview-load-error",
            UiEvent::NewTabCreated { .. } => "new-tab-created",
        }
    }
}

/// The event reporting a title typed by the page's own script, relayed
/// unchanged to the UI layer.
pub fn title_update_event(tab_id: &String, title: &String) -> (r: UiEvent)
    ensures
        r matches UiEvent::TitleChanged { tab_id: t, title: ti }
            && t@ == tab_id@ && ti@ == title@,
{
    UiEvent::TitleChanged { tab_id: tab_id.clone(), title: title.clone() }
}

} // verus!
