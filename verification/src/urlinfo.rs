//! URL classification and the URL-based title heuristic: scheme checks,
//! host extraction, and the fallback title a tab shows before any page
//! metadata arrives.

use vstd::prelude::*;
use crate::text::{contains_seq, contains_str, has_prefix, starts_with_str, str_eq_str};

verus! {

/// What `url::Url::parse` followed by `host_str` yields for a URL
/// string: `None` when the string does not parse as an absolute URL,
/// `Some(None)` when it parses but has no host, `Some(Some(h))` when
/// its host serializes as `h`. A deterministic function of the string.
pub uninterp spec fn parsed_host(s: Seq<char>) -> Option<Option<Seq<char>>>;

/// What resolving `rel` against the absolute URL `base` serializes to:
/// `None` when `base` does not parse or the join fails. A deterministic
/// function of the two strings.
pub uninterp spec fn joined_url(base: Seq<char>, rel: Seq<char>) -> Option<Seq<char>>;

/// Relies on url::Url::parse (whether a string is an absolute URL) and
/// url::Url::host_str (the serialized host of a parsed URL); both are
/// deterministic in the input string. A host, when present, is never
/// the empty string: the crate stores an empty domain as no host at
/// all, and IP addresses serialize to nonempty text.
#[verifier::external_body]
pub(crate) fn parse_host(s: &str) -> (r: Option<Option<String>>)
    ensures
        match r {
            None => parsed_host(s@) is None,
            Some(h) => match h {
                None => parsed_host(s@) == Some(Option::<Seq<char>>::None),
                Some(hs) => parsed_host(s@) == Some(Some(hs@)) && hs@.len() > 0,
            },
        },
{
    match url::Url::parse(s) {
        Err(_) => None,
        Ok(u) => Some(u.host_str().map(|h| h.to_string())),
    }
}

/// Relies on url::Url::parse and url::Url::join: resolving a relative
/// reference against a base URL is deterministic in the two strings;
/// url::Url::as_str returns the serialization.
#[verifier::external_body]
pub(crate) fn join_url(base: &str, rel: &str) -> (r: Option<String>)
    ensures
        match r {
            None => joined_url(base@, rel@) is None,
            Some(u) => joined_url(base@, rel@) == Some(u@),
        },
{
    match url::Url::parse(base) {
        Err(_) => None,
        Ok(b) => match b.join(rel) {
            Err(_) => None,
            Ok(u) => Some(u.as_str().to_string()),
        },
    }
}

/// The URL may be handed to a surface as external web content.
pub open spec fn is_web_url(u: Seq<char>) -> bool {
    has_prefix(u, "http://"@) || has_prefix(u, "https://"@)
}

/// The URL may be navigated to inside an existing surface.
pub open spec fn nav_scheme_ok(u: Seq<char>) -> bool {
    has_prefix(u, "http://"@) || has_prefix(u, "https://"@) || has_prefix(u, "file://"@)
}

/// The URL names network content the metadata pipeline should fetch for
/// (the internal blank page does not).
pub open spec fn is_network_url(u: Seq<char>) -> bool {
    u != "about:blank"@ && has_prefix(u, "http"@)
}

/// Whether the URL is external web content (http or https).
pub fn check_web_url(u: &str) -> (r: bool)
    ensures
        r == is_web_url(u@),
{
    starts_with_str(u, "http://") || starts_with_str(u, "https://")
}

/// Whether the URL's scheme is accepted for in-surface navigation.
pub fn check_nav_scheme(u: &str) -> (r: bool)
    ensures
        r == nav_scheme_ok(u@),
{
    starts_with_str(u, "http://") || starts_with_str(u, "https://")
        || starts_with_str(u, "file://")
}

/// Whether the metadata pipeline should fetch for this URL.
pub fn check_network_url(u: &str) -> (r: bool)
    ensures
        r == is_network_url(u@),
{
    !str_eq_str(u, "about:blank") && starts_with_str(u, "http")
}

/// The placeholder title for a new or blank tab.
pub open spec fn blank_title() -> Seq<char> {
    "Новая вкладка"@
}

/// The heuristic title for a URL: a fixed table of well-known hosts,
/// then the URL's own host, then the blank-tab placeholder.
pub open spec fn title_from_url_spec(u: Seq<char>) -> Seq<char> {
    if contains_seq(u, "yandex.ru"@) {
        "Яндекс"@
    } else if contains_seq(u, "google.com"@) {
        "Google"@
    } else if contains_seq(u, "youtube.com"@) {
        "YouTube"@
    } else if contains_seq(u, "github.com"@) {
        "GitHub"@
    } else if u == "about:blank"@ {
        blank_title()
    } else {
        match parsed_host(u) {
            Some(Some(h)) => h,
            _ => blank_title(),
        }
    }
}

/// Guesses a title from the URL alone: no network, no page content,
/// and never an empty result.
pub fn get_title_from_url(url_str: &str) -> (r: String)
    ensures
        r@ == title_from_url_spec(url_str@),
        r@.len() > 0,
{
    proof {
        reveal_strlit("Яндекс");
        reveal_strlit("Google");
        reveal_strlit("YouTube");
        reveal_strlit("GitHub");
        reveal_strlit("Новая вкладка");
    }
    if contains_str(url_str, "yandex.ru") {
        "Яндекс".to_owned()
    } else if contains_str(url_str, "google.com") {
        "Google".to_owned()
    } else if contains_str(url_str, "youtube.com") {
        "YouTube".to_owned()
    } else if contains_str(url_str, "github.com") {
        "GitHub".to_owned()
    } else if str_eq_str(url_str, "about:blank") {
        "Новая вкладка".to_owned()
    } else {
        match parse_host(url_str) {
            Some(h) => match h {
                Some(hs) => hs,
                None => "Новая вкладка".to_owned(),
            },
            None => "Новая вкладка".to_owned(),
        }
    }
}

} // verus!
