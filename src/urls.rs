//! Endpoint URLs derived from the configured HTTP base, an optional WebSocket
//! base and the bearer token.

use vstd::prelude::*;
use vstd::string::*;
use crate::text::{concat3, has_prefix, starts_with, trim_end_slashes, trim_trailing_slashes};

verus! {

/// The url crate's `ParseError`, carried through unopened in `UrlError`.
#[verifier::external_type_specification]
#[verifier::external_body]
pub struct ExParseError(url::ParseError);

/// The serialization that the url crate gives to `s`, or `None` where `s` does
/// not parse as a URL.
pub uninterp spec fn url_serialization(s: Seq<char>) -> Option<Seq<char>>;

/// Relies on `url::Url::parse`: parses `s`, and on success hands back the
/// parsed URL's serialization (`Url::as_str`). Parsing depends on the text alone.
#[verifier::external_body]
fn parse_url(s: &str) -> (r: Result<String, url::ParseError>)
    ensures
        match r {
            Ok(t) => url_serialization(s@) == Some(t@),
            Err(_) => url_serialization(s@) is None,
        },
{
    url::Url::parse(s).map(|u| u.as_str().to_string())
}

/// Why the endpoint URLs could not be derived.
#[derive(Debug, Clone, Copy)]
pub enum UrlError {
    /// A configured base is not a URL.
    InvalidUrl(url::ParseError),
    /// No WebSocket base is configured and the HTTP base is neither `http` nor `https`.
    UnsupportedScheme,
}

/// The WebSocket base that corresponds to a serialized HTTP base: `http` maps to
/// `ws` and `https` to `wss`, with everything after the scheme kept. Both pairs
/// share a default port, so host and port stay as they are.
pub open spec fn ws_base_of(t: Seq<char>) -> Option<Seq<char>> {
    if has_prefix(t, seq!['h', 't', 't', 'p', 's', ':']) {
        Some(seq!['w', 's', 's', ':'] + t.skip(6))
    } else if has_prefix(t, seq!['h', 't', 't', 'p', ':']) {
        Some(seq!['w', 's', ':'] + t.skip(5))
    } else {
        None
    }
}

/// The four endpoints of one agent.
#[derive(Debug, Clone)]
pub struct ConnectionUrls {
    pub basic_info_url: String,
    pub exec_callback_url: String,
    pub ws_terminal_url: String,
    pub ws_real_time_url: String,
}

impl ConnectionUrls {
    /// The endpoints built from serialized bases `http` and `ws` and `token`.
    pub open spec fn built_from(self, http: Seq<char>, ws: Seq<char>, token: Seq<char>) -> bool {
        let h = trim_trailing_slashes(http);
        let w = trim_trailing_slashes(ws);
        &&& self.basic_info_url@ == h + "/api/clients/uploadBasicInfo?token="@ + token
        &&& self.exec_callback_url@ == h + "/api/clients/task/result?token="@ + token
        &&& self.ws_terminal_url@ == w + "/api/clients/terminal?token="@ + token
        &&& self.ws_real_time_url@ == w + "/api/clients/report?token="@ + token
    }
}

/// Maps a serialized HTTP base to its WebSocket base.
fn ws_base_from_http(t: &str) -> (r: Option<String>)
    ensures
        match r {
            Some(w) => ws_base_of(t@) == Some(w@),
            None => ws_base_of(t@) is None,
        },
{
    proof {
        reveal_strlit("https:");
        reveal_strlit("http:");
        reveal_strlit("wss:");
        reveal_strlit("ws:");
        assert("https:"@ =~= seq!['h', 't', 't', 'p', 's', ':']);
        assert("http:"@ =~= seq!['h', 't', 't', 'p', ':']);
    }
    let n = t.unicode_len();
    if starts_with(t, "https:") {
        let rest = t.substring_char(6, n);
        let w = String::from_str("wss:").concat(rest);
        assert(w@ =~= seq!['w', 's', 's', ':'] + t@.skip(6));
        Some(w)
    } else if starts_with(t, "http:") {
        let rest = t.substring_char(5, n);
        let w = String::from_str("ws:").concat(rest);
        assert(w@ =~= seq!['w', 's', ':'] + t@.skip(5));
        Some(w)
    } else {
        None
    }
}

/// Derives the agent's endpoints. A missing WebSocket base is derived from the
/// HTTP base (`http` to `ws`, `https` to `wss`); trailing slashes of both bases
/// are dropped before the paths are appended.
pub fn build_urls(http_server: &str, ws_server: &Option<String>, token: &str) -> (r: Result<
    ConnectionUrls,
    UrlError,
>)
    ensures
        match url_serialization(http_server@) {
            None => r is Err && r->Err_0 is InvalidUrl,
            Some(h) => match ws_server {
                Some(ws) => match url_serialization(ws@) {
                    None => r is Err && r->Err_0 is InvalidUrl,
                    Some(w) => r is Ok && r->Ok_0.built_from(h, w, token@),
                },
                None => match ws_base_of(h) {
                    None => r is Err && r->Err_0 is UnsupportedScheme,
                    Some(w) => r is Ok && r->Ok_0.built_from(h, w, token@),
                },
            },
        },
{
    let http_url = match parse_url(http_server) {
        Ok(u) => u,
        Err(e) => return Err(UrlError::InvalidUrl(e)),
    };
    let ws_url = match ws_server {
        Some(ws) => match parse_url(ws.as_str()) {
            Ok(u) => u,
            Err(e) => return Err(UrlError::InvalidUrl(e)),
        },
        None => match ws_base_from_http(http_url.as_str()) {
            Some(w) => w,
            None => return Err(UrlError::UnsupportedScheme),
        },
    };
    let http_base = trim_end_slashes(http_url.as_str());
    let ws_base = trim_end_slashes(ws_url.as_str());
    Ok(ConnectionUrls {
        basic_info_url: concat3(http_base.as_str(), "/api/clients/uploadBasicInfo?token=", token),
        exec_callback_url: concat3(http_base.as_str(), "/api/clients/task/result?token=", token),
        ws_terminal_url: concat3(ws_base.as_str(), "/api/clients/terminal?token=", token),
        ws_real_time_url: concat3(ws_base.as_str(), "/api/clients/report?token=", token),
    })
}

/// The terminal endpoint of one session: the terminal base with the request's id.
pub fn get_pty_ws_link(request_id: &str, ws_terminal_url: &str) -> (r: String)
    ensures
        r@ == ws_terminal_url@ + "&id="@ + request_id@,
{
    concat3(ws_terminal_url, "&id=", request_id)
}

} // verus!
