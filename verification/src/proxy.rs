//! Normalisation of the proxy address a user types in.

use vstd::prelude::*;
use crate::text::{contains_str, has_substring, lemma_trim_edges, lemma_trim_fixed, occurs_at, trim, trim_str};

verus! {

/// Message for an address that does not parse.
pub const INVALID_PROXY_MESSAGE: &'static str = "代理地址格式无效，请输入类似 socks5://127.0.0.1:7897 的地址";

/// Message for an address that parses but lacks a host or an explicit port.
pub const MISSING_HOST_OR_PORT_MESSAGE: &'static str = "代理地址格式无效，请补充主机和端口";

/// What the proxy check reads of a parsed address: whether it has a host, and
/// its explicit port (none when the port is absent or the scheme's default).
#[derive(Debug, Clone, Copy, PartialEq, Eq, Structural)]
pub struct ParsedUrl {
    pub has_host: bool,
    pub port: Option<u16>,
}

/// The outcome of parsing `input` with the `url` crate: `None` when it does not
/// parse, else whether the address has a host and its explicit port.
pub uninterp spec fn url_parse_summary(input: Seq<char>) -> Option<ParsedUrl>;

/// Calls `url::Url::parse` on `input`, then `Url::host_str` and `Url::port` on
/// the result. The contract names the outcome `url_parse_summary(input@)` and
/// says nothing of how the WHATWG URL grammar decides it.
#[verifier::external_body]
fn parse_url(input: &str) -> (r: Option<ParsedUrl>)
    ensures
        r == url_parse_summary(input@),
{
    match url::Url::parse(input) {
        Ok(parsed) => Some(ParsedUrl { has_host: parsed.host_str().is_some(), port: parsed.port() }),
        Err(_) => None,
    }
}

/// The address that is checked: the trimmed input as typed when it names a
/// scheme (holds `://`), else with `http://` in front.
pub open spec fn proxy_candidate(trimmed: Seq<char>) -> Seq<char> {
    if has_substring(trimmed, "://"@) {
        trimmed
    } else {
        "http://"@ + trimmed
    }
}

/// The verdict on a candidate address given what parsing it yielded.
pub open spec fn proxy_verdict(candidate: Seq<char>, parsed: Option<ParsedUrl>) -> Result<Option<Seq<char>>, Seq<char>> {
    match parsed {
        None => Err(INVALID_PROXY_MESSAGE@),
        Some(p) => if !p.has_host || p.port is None {
            Err(MISSING_HOST_OR_PORT_MESSAGE@)
        } else {
            Ok(Some(candidate))
        },
    }
}

/// The result of normalising the typed text `raw`: no proxy for blank text,
/// else the verdict on its candidate address.
pub open spec fn normalized_proxy(raw: Seq<char>) -> Result<Option<Seq<char>>, Seq<char>> {
    if trim(raw).len() == 0 {
        Ok(None)
    } else {
        let c = proxy_candidate(trim(raw));
        proxy_verdict(c, url_parse_summary(c))
    }
}

/// The texts that a proxy result holds.
pub open spec fn proxy_result_text(r: Result<Option<String>, String>) -> Result<Option<Seq<char>>, Seq<char>> {
    match r {
        Ok(Some(s)) => Ok(Some(s@)),
        Ok(None) => Ok(None),
        Err(e) => Err(e@),
    }
}

/// Decides on a candidate address from what parsing it yielded: an address
/// that does not parse, or lacks a host or an explicit port, is refused with
/// the matching message; otherwise the candidate is the proxy.
pub fn check_proxy_candidate(candidate: String, parsed: Option<ParsedUrl>) -> (r: Result<Option<String>, String>)
    ensures
        proxy_result_text(r) == proxy_verdict(candidate@, parsed),
{
    match parsed {
        None => Err(INVALID_PROXY_MESSAGE.to_string()),
        Some(p) => {
            if !p.has_host || p.port.is_none() {
                Err(MISSING_HOST_OR_PORT_MESSAGE.to_string())
            } else {
                Ok(Some(candidate))
            }
        },
    }
}

/// Normalises a typed proxy address: blank text means no proxy; text without
/// a scheme gets `http://`; the address must parse with a host and a port.
pub fn normalize_proxy(raw: &str) -> (r: Result<Option<String>, String>)
    ensures
        proxy_result_text(r) == normalized_proxy(raw@),
{
    let trimmed = trim_str(raw);
    if trimmed.is_empty() {
        return Ok(None);
    }
    let candidate = if contains_str(trimmed, "://") {
        trimmed.to_string()
    } else {
        let mut c = "http://".to_string();
        c.append(trimmed);
        c
    };
    let parsed = parse_url(candidate.as_str());
    check_proxy_candidate(candidate, parsed)
}

/// Blank text means no proxy; otherwise the address checked is the trimmed
/// text, with `http://` in front when it holds no `://`. That address is the
/// proxy when it parses with a host and an explicit port; an address that
/// does not parse is refused with the invalid-address message, and one
/// without a host or port with the missing-host-or-port message.
pub proof fn lemma_normalize_proxy_outcomes(raw: Seq<char>)
    ensures
        (normalized_proxy(raw) == Ok::<Option<Seq<char>>, Seq<char>>(None)) <==> trim(raw).len() == 0,
        ({
            let t = trim(raw);
            let c = if has_substring(t, "://"@) { t } else { "http://"@ + t };
            t.len() > 0 ==> match url_parse_summary(c) {
                None => normalized_proxy(raw) == Err::<Option<Seq<char>>, Seq<char>>(INVALID_PROXY_MESSAGE@),
                Some(p) => if p.has_host && p.port is Some {
                    normalized_proxy(raw) == Ok::<Option<Seq<char>>, Seq<char>>(Some(c))
                } else {
                    normalized_proxy(raw) == Err::<Option<Seq<char>>, Seq<char>>(MISSING_HOST_OR_PORT_MESSAGE@)
                },
            }
        }),
{
}

/// A normalised proxy address normalises to itself.
pub proof fn lemma_normalize_proxy_idempotent(raw: Seq<char>)
    ensures
        normalized_proxy(raw) matches Ok(Some(c)) ==> normalized_proxy(c) == Ok::<Option<Seq<char>>, Seq<char>>(Some(c)),
{
    if let Ok(Some(c)) = normalized_proxy(raw) {
        let t = trim(raw);
        lemma_trim_edges(raw);
        reveal_strlit("http://");
        reveal_strlit("://");
        if !has_substring(t, "://"@) {
            let h = "http://"@;
            assert(c == h + t);
            assert(c[0] == 'h');
            assert(c.last() == t.last());
            assert(occurs_at(c, "://"@, 4)) by {
                assert(c.subrange(4, 7) =~= "://"@);
            }
        }
        assert(has_substring(c, "://"@));
        lemma_trim_fixed(c);
        assert(proxy_candidate(trim(c)) == c);
    }
}

} // verus!
