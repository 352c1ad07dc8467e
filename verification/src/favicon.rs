//! Favicon resolution policy: which URLs to try, in what order, and
//! how a fetched image is packaged as a data URI for the UI.

use base64::Engine;
use vstd::prelude::*;
use crate::lifecycle::ShellError;
use crate::text::{find_from, find_spec, lemma_find_spec_some};
use crate::urlinfo::{join_url, joined_url, parse_host, parsed_host};

verus! {

/// What base64's standard engine produces for a byte string: a
/// deterministic function of the bytes alone.
pub uninterp spec fn base64_std(bs: Seq<u8>) -> Seq<char>;

/// Relies on base64's general_purpose::STANDARD engine: encoding is a
/// deterministic function of the input bytes, and the padded output
/// holds four characters for every started group of three bytes.
#[verifier::external_body]
fn base64_encode(bytes: &Vec<u8>) -> (r: String)
    ensures
        r@ == base64_std(bytes@),
        r@.len() == 4 * ((bytes@.len() + 2) / 3),
{
    base64::engine::general_purpose::STANDARD.encode(bytes)
}

/// The host part the lookup-service URL is keyed by: the URL's host,
/// or nothing when the parsed URL has none.
pub open spec fn host_or_empty(h: Option<Option<Seq<char>>>) -> Seq<char> {
    match h {
        Some(hs) => match hs {
            Some(x) => x,
            None => Seq::empty(),
        },
        None => Seq::empty(),
    }
}

/// The two favicon sources for a page, tried in order.
#[derive(Debug, Clone)]
pub struct FaviconPlan {
    /// The site's own icon location, resolved against the page URL.
    pub primary_url: String,
    /// The third-party lookup service, keyed by the page's host.
    pub fallback_url: String,
}

/// Plans the favicon fetch for a page URL: the site's own icon path
/// first, the lookup service keyed by host second. Fails when the URL
/// does not parse, or when no icon URL can be resolved against it.
pub fn favicon_fetch_plan(url: &String) -> (r: Result<FaviconPlan, ShellError>)
    ensures
        match r {
            Ok(p) => {
                &&& parsed_host(url@) is Some
                &&& joined_url(url@, "/favicon.ico"@) == Some(p.primary_url@)
                &&& p.fallback_url@ == "https://icons.duckduckgo.com/ip3/"@
                    + host_or_empty(parsed_host(url@)) + ".ico"@
            },
            Err(e) => {
                &&& (e is InvalidUrl <==> parsed_host(url@) is None)
                &&& (e is FaviconUrlBuildFailed <==> parsed_host(url@) is Some
                    && joined_url(url@, "/favicon.ico"@) is None)
                &&& (e is InvalidUrl || e is FaviconUrlBuildFailed)
            },
        },
{
    let host = match parse_host(url.as_str()) {
        None => {
            return Err(ShellError::InvalidUrl);
        },
        Some(h) => h,
    };
    let primary_url = match join_url(url.as_str(), "/favicon.ico") {
        None => {
            return Err(ShellError::FaviconUrlBuildFailed);
        },
        Some(p) => p,
    };
    let mut fallback_url = "https://icons.duckduckgo.com/ip3/".to_owned();
    match host {
        Some(h) => fallback_url.append(h.as_str()),
        None => {},
    }
    fallback_url.append(".ico");
    proof {
        assert(fallback_url@ =~= "https://icons.duckduckgo.com/ip3/"@
            + host_or_empty(parsed_host(url@)) + ".ico"@);
    }
    Ok(FaviconPlan { primary_url, fallback_url })
}

/// Which source a finished two-step fetch settles on.
#[derive(Debug, Clone, PartialEq, Eq, Structural)]
pub enum FaviconSource {
    /// The site's own icon answered successfully.
    PrimaryIcon,
    /// The lookup service answered after the site's icon did not.
    LookupService,
}

/// Whether the lookup service must be consulted at all.
pub fn favicon_needs_fallback(primary_ok: bool) -> (r: bool)
    ensures
        r == !primary_ok,
{
    !primary_ok
}

/// Settles the two-step fallback: the site's own icon wins when it
/// answered, the lookup service covers for it, and only when both
/// failed is the favicon reported unavailable. When the primary
/// answered, the fallback's outcome is irrelevant.
pub fn favicon_resolution(primary_ok: bool, fallback_ok: bool) -> (r: Result<
    FaviconSource,
    ShellError,
>)
    ensures
        match r {
            Ok(src) => (primary_ok && src is PrimaryIcon)
                || (!primary_ok && fallback_ok && src is LookupService),
            Err(e) => e is FaviconUnavailable && !primary_ok && !fallback_ok,
        },
{
    if primary_ok {
        Ok(FaviconSource::PrimaryIcon)
    } else if fallback_ok {
        Ok(FaviconSource::LookupService)
    } else {
        Err(ShellError::FaviconUnavailable)
    }
}

/// The media type a response advertises, before any parameters: the
/// header value up to the first semicolon, whole when there is none.
pub open spec fn mime_prefix(h: Seq<char>) -> Seq<char> {
    match find_spec(h, ";"@, 0) {
        Some(i) => h.subrange(0, i),
        None => h,
    }
}

/// The content type used for the data URI: the response header's media
/// type, or the icon default when the response carried none.
pub fn favicon_content_type(header: Option<&String>) -> (r: String)
    ensures
        match header {
            Some(h) => r@ == mime_prefix(h@),
            None => r@ == "image/x-icon"@,
        },
{
    match header {
        Some(h) => match find_from(h.as_str(), ";", 0, false) {
            Some(i) => {
                proof {
                    lemma_find_spec_some(h@, ";"@, 0, i as int);
                }
                h.as_str().substring_char(0, i).to_owned()
            },
            None => h.clone(),
        },
        None => "image/x-icon".to_owned(),
    }
}

/// Packages fetched favicon bytes as a data URI with the given content
/// type and base64-encoded payload.
pub fn favicon_data_uri(content_type: &String, bytes: &Vec<u8>) -> (r: String)
    ensures
        r@ == "data:"@ + content_type@ + ";base64,"@ + base64_std(bytes@),
{
    let mut s = "data:".to_owned();
    s.append(content_type.as_str());
    s.append(";base64,");
    let encoded = base64_encode(bytes);
    s.append(encoded.as_str());
    proof {
        assert(s@ =~= "data:"@ + content_type@ + ";base64,"@ + base64_std(bytes@));
    }
    s
}

} // verus!
