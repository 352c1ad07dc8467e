//! Support for the UI-facing command layer: the home-page default, the
//! generated identifier for a tab opened from a page link, and the
//! diagnostic listing of live surfaces.

use vstd::prelude::*;
use crate::events::UiEvent;
use crate::text::{append_decimal, bool_label, dec_str};

verus! {

/// The URL a tab navigates to when asked to go home: the caller's
/// override when one is given, else the fixed default.
pub fn home_navigation_url(home_url: Option<String>) -> (r: String)
    ensures
        match home_url {
            Some(h) => r@ == h@,
            None => r@ == "https://www.google.com"@,
        },
{
    match home_url {
        Some(h) => h,
        None => "https://www.google.com".to_owned(),
    }
}

/// The identifier of a tab opened from a page link: a fixed prefix
/// before the decimal creation timestamp, so identifiers from one
/// clock never collide.
pub open spec fn generated_tab_id(timestamp_nanos: int) -> Seq<char> {
    "tab_"@ + dec_str(timestamp_nanos)
}

/// Builds the identifier for a tab created at the given time.
pub fn new_tab_id(timestamp_nanos: u64) -> (r: String)
    ensures
        r@ == generated_tab_id(timestamp_nanos as int),
{
    let mut s = "tab_".to_owned();
    append_decimal(&mut s, timestamp_nanos);
    s
}

/// The provisional title a link-opened tab shows until metadata lands.
pub open spec fn loading_title() -> Seq<char> {
    "Загрузка..."@
}

/// The provisional title as a value.
pub fn loading_title_label() -> (r: &'static str)
    ensures
        r@ == loading_title(),
{
    "Загрузка..."
}

/// The event announcing a tab opened from a page link.
pub fn new_tab_created_event(tab_id: &String, url: &String, label: &String) -> (r: UiEvent)
    ensures
        r matches UiEvent::NewTabCreated { tab_id: t, url: u, title: ti, webview_label: l }
            && t@ == tab_id@ && u@ == url@ && ti@ == loading_title() && l@ == label@,
{
    UiEvent::NewTabCreated {
        tab_id: tab_id.clone(),
        url: url.clone(),
        title: loading_title_label().to_owned(),
        webview_label: label.clone(),
    }
}

/// One diagnostic line for a registered surface.
pub open spec fn info_line_spec(tab: Seq<char>, label: Seq<char>, exists: bool) -> Seq<char> {
    "Tab: "@ + tab + ", Label: "@ + label + ", Exists: "@
        + (if exists { "true"@ } else { "false"@ })
}

/// Formats one diagnostic line: the tab, its label, and whether the
/// host still has the surface.
pub fn webview_info_line(tab_id: &String, label: &String, exists: bool) -> (r: String)
    ensures
        r@ == info_line_spec(tab_id@, label@, exists),
{
    let mut s = "Tab: ".to_owned();
    s.append(tab_id.as_str());
    s.append(", Label: ");
    s.append(label.as_str());
    s.append(", Exists: ");
    s.append(bool_label(exists));
    proof {
        assert(s@ =~= info_line_spec(tab_id@, label@, exists));
    }
    s
}

/// Formats the diagnostic listing: one line per registry entry, in
/// order, with the host-existence flag the shell observed for each.
pub fn webview_info_lines(entries: &Vec<(String, String)>, exists: &Vec<bool>) -> (r: Vec<
    String,
>)
    requires
        entries@.len() == exists@.len(),
    ensures
        r@.len() == entries@.len(),
        forall|i: int| 0 <= i < r@.len()
            ==> (#[trigger] r@[i])@ == info_line_spec(
                entries@[i].0@,
                entries@[i].1@,
                exists@[i],
            ),
{
    let n = entries.len();
    let mut out: Vec<String> = Vec::new();
    let mut i: usize = 0;
    while i < n
        invariant
            n == entries@.len(),
            exists@.len() == n,
            i <= n,
            out@.len() == i,
            forall|j: int| 0 <= j < i
                ==> (#[trigger] out@[j])@ == info_line_spec(
                    entries@[j].0@,
                    entries@[j].1@,
                    exists@[j],
                ),
        decreases n - i,
    {
        out.push(webview_info_line(&entries[i].0, &entries[i].1, exists[i]));
        i += 1;
    }
    out
}

} // verus!
