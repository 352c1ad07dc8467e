//! Extracting a page title from a fetched document: the first title
//! tag's contents, matched case-insensitively across line breaks, then
//! trimmed; the URL's host is the fallback when the tag is missing or
//! empty.

use vstd::prelude::*;
use crate::lifecycle::ShellError;
use crate::text::{find_from, find_spec, has_prefix, lemma_find_spec_some, lower_seq,
    starts_with_str, trim_spec, trim_str};
use crate::urlinfo::{blank_title, parse_host, parsed_host};

verus! {

/// The contents of the first title tag of the document: the text
/// between the first case-insensitive `<title`, its closing `>`, and
/// the first case-insensitive `</title>` after that; absent when any
/// of the three is missing.
pub open spec fn title_slice(s: Seq<char>) -> Option<Seq<char>> {
    match find_spec(lower_seq(s), "<title"@, 0) {
        None => None,
        Some(i) => match find_spec(s, ">"@, i + "<title"@.len()) {
            None => None,
            Some(j) => match find_spec(lower_seq(s), "</title>"@, j + 1) {
                None => None,
                Some(k) => Some(s.subrange(j + 1, k)),
            },
        },
    }
}

/// Finds the first title tag's contents in a document, untrimmed.
pub fn extract_title(body: &str) -> (r: Option<String>)
    ensures
        match r {
            Some(t) => title_slice(body@) == Some(t@),
            None => title_slice(body@) is None,
        },
{
    let slen = body.unicode_len();
    let open_pat = "<title";
    match find_from(body, open_pat, 0, true) {
        None => None,
        Some(i) => {
            proof {
                lemma_find_spec_some(lower_seq(body@), open_pat@, 0, i as int);
            }
            let after = i + open_pat.unicode_len();
            match find_from(body, ">", after, false) {
                None => None,
                Some(j) => {
                    proof {
                        lemma_find_spec_some(body@, ">"@, after as int, j as int);
                        reveal_strlit(">");
                    }
                    match find_from(body, "</title>", j + 1, true) {
                        None => None,
                        Some(k) => {
                            proof {
                                lemma_find_spec_some(
                                    lower_seq(body@),
                                    "</title>"@,
                                    j + 1 as int,
                                    k as int,
                                );
                                reveal_strlit("</title>");
                            }
                            Some(body.substring_char(j + 1, k).to_owned())
                        },
                    }
                },
            }
        },
    }
}

/// Whether fetching a page title is supported for this URL at all:
/// only network URLs are.
pub fn page_title_request_allowed(url: &String) -> (r: Result<(), ShellError>)
    ensures
        match r {
            Ok(_) => has_prefix(url@, "http"@),
            Err(e) => e is UnsupportedFetchScheme && !has_prefix(url@, "http"@),
        },
{
    if starts_with_str(url.as_str(), "http") {
        Ok(())
    } else {
        Err(ShellError::UnsupportedFetchScheme)
    }
}

/// The title the resolver reports for a URL and a fetched body: the
/// trimmed tag contents when present and nonempty, else the URL's
/// host, else the blank-tab placeholder when the URL parses without a
/// host; absent only when the URL does not parse either.
pub open spec fn page_title_spec(u: Seq<char>, body: Seq<char>) -> Option<Seq<char>> {
    let extracted = match title_slice(body) {
        Some(raw) => if trim_spec(raw).len() > 0 {
            Some(trim_spec(raw))
        } else {
            None
        },
        None => None,
    };
    match extracted {
        Some(t) => Some(t),
        None => match parsed_host(u) {
            Some(h) => match h {
                Some(hs) => Some(hs),
                None => Some(blank_title()),
            },
            None => None,
        },
    }
}

/// Resolves the title of a fetched page: tag contents first, host
/// fallback second, and a failure only when even the URL is opaque.
/// A resolved title is never empty.
pub fn page_title_from_body(url: &String, body: &String) -> (r: Result<String, ShellError>)
    ensures
        match r {
            Ok(t) => page_title_spec(url@, body@) == Some(t@) && t@.len() > 0,
            Err(e) => e is TitleUnavailable && page_title_spec(url@, body@) is None,
        },
{
    proof {
        reveal_strlit("Новая вкладка");
    }
    match extract_title(body.as_str()) {
        Some(raw) => {
            let trimmed = trim_str(raw.as_str());
            if trimmed.unicode_len() > 0 {
                return Ok(trimmed);
            }
        },
        None => {},
    }
    match parse_host(url.as_str()) {
        Some(h) => match h {
            Some(hs) => Ok(hs),
            None => Ok("Новая вкладка".to_owned()),
        },
        None => Err(ShellError::TitleUnavailable),
    }
}

} // verus!
