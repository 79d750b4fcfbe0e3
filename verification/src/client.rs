use vstd::prelude::*;

use crate::error::Error;
use crate::models::EventConsolidatedState;
use crate::models::EventStatusUpdatePayload;
use crate::wire::decode_state;
use crate::wire::error_response_from_body;
use crate::wire::json_str_field;
use crate::wire::spec_payload_json;
use crate::wire::spec_payload_json_defined;
use crate::wire::spec_state_fields_ok;
use crate::wire::spec_state_matches;

verus! {

#[verifier::external_type_specification]
#[verifier::external_body]
pub struct ExUrl(url::Url);

#[verifier::external_type_specification]
#[verifier::external_body]
pub struct ExReqwestClient(reqwest::Client);

/// Relies on url::Url's derived Clone impl; nothing is assumed of the
/// copy, which only lets a whole client be cloned.
pub assume_specification[ <url::Url as Clone>::clone ](u: &url::Url) -> url::Url;

/// Relies on reqwest::Client's Clone impl, which hands out another
/// handle to the same transport; nothing is assumed of the copy,
/// which only lets a whole client be cloned.
pub assume_specification[ <reqwest::Client as Clone>::clone ](c: &reqwest::Client) -> reqwest::Client;

/// The serialization of a URL value, as the `url` crate renders it;
/// a `url::Url` is determined by this string.
pub uninterp spec fn url_str_of(u: url::Url) -> Seq<char>;

/// What the `url` crate parses a string into: the serialization of
/// the resulting URL, or `None` when the string is not an absolute
/// URL it accepts.  The outcome depends on the string alone.
pub uninterp spec fn url_parse_str(s: Seq<char>) -> Option<Seq<char>>;

/// What the `url` crate resolves a relative reference to against a
/// base URL (given by its serialization): the serialization of the
/// resolved URL, or `None` when resolution fails.  The outcome
/// depends on the two strings alone.
pub uninterp spec fn url_join_str(base: Seq<char>, rel: Seq<char>) -> Option<Seq<char>>;

/// Whether the `url` crate accepts a string as an absolute URL.
pub open spec fn url_parse_ok(s: Seq<char>) -> bool {
    url_parse_str(s) is Some
}

/// Relies on url::Url::parse: `Ok` exactly when the string parses as
/// an absolute URL, and then the returned URL is the parse of the
/// string; the `Err` message is the parser diagnostic.
#[verifier::external_body]
fn parse_url(s: &str) -> (r: Result<url::Url, String>)
    ensures
        r is Ok <==> url_parse_str(s@) is Some,
        r matches Ok(u) ==> url_parse_str(s@) == Some(url_str_of(u)),
{
    match url::Url::parse(s) {
        Ok(u) => Ok(u),
        Err(e) => Err(e.to_string()),
    }
}

/// Relies on url::Url::join: resolves the relative reference against
/// the base URL with standard relative-URL-resolution semantics (the
/// base URL's trailing path, if any, is preserved per URL-join
/// rules), `Ok` exactly when resolution succeeds, and then the
/// returned URL is the resolution's result; the `Err` message is the
/// parser diagnostic.
#[verifier::external_body]
fn join_url(base: &url::Url, rel: &str) -> (r: Result<url::Url, String>)
    ensures
        r is Ok <==> url_join_str(url_str_of(*base), rel@) is Some,
        r matches Ok(u) ==> url_join_str(url_str_of(*base), rel@) == Some(url_str_of(u)),
{
    match base.join(rel) {
        Ok(u) => Ok(u),
        Err(e) => Err(e.to_string()),
    }
}

/// Relies on reqwest::Client::builder, ClientBuilder::timeout and
/// ClientBuilder::build: a transport handle with a 30-second total
/// request timeout and no automatic retries; no network I/O happens
/// here.  The `Err` message is the builder's diagnostic.
#[verifier::external_body]
fn default_transport() -> (r: Result<reqwest::Client, String>) {
    match reqwest::Client::builder().timeout(std::time::Duration::from_secs(30)).build() {
        Ok(c) => Ok(c),
        Err(e) => Err(e.to_string()),
    }
}

/// A character the `http` crate accepts inside a header value: the
/// horizontal tab, or anything at or above the space that is not the
/// delete control character (every character beyond ASCII encodes to
/// bytes the crate accepts).
pub open spec fn spec_header_char_ok(c: char) -> bool {
    c == '\t' || (32 <= c as u32 && c as u32 != 127)
}

/// Whether every character of a string is legal inside an HTTP header
/// value.
pub open spec fn spec_header_value_ok(s: Seq<char>) -> bool {
    forall|i: int| 0 <= i < s.len() ==> spec_header_char_ok(s[i])
}

/// Checks a string against the header-value rule of the `http` crate:
/// each byte must be the horizontal tab or lie at or above 32 and not
/// be 127.
fn header_value_ok(s: &str) -> (r: bool)
    ensures
        r == spec_header_value_ok(s@),
{
    let mut ok = true;
    for c in it: s.chars()
        invariant
            it.seq() == s@,
            ok == (forall|i: int| 0 <= i < it.index() ==> spec_header_char_ok(s@[i])),
    {
        let c_ok = c == '\t' || (32 <= c as u32 && c as u32 != 127);
        ok = ok && c_ok;
    }
    ok
}

/// The value of the authorization header: the bearer scheme in front
/// of the probe token, stored verbatim.
pub open spec fn spec_bearer(token: Seq<char>) -> Seq<char> {
    "Bearer "@ + token
}

/// The composed bearer header value is legal in an HTTP header
/// exactly when the probe token itself is: every character of the
/// `Bearer ` scheme prefix is legal on its own.
pub proof fn lemma_bearer_header_ok(token: Seq<char>)
    ensures
        spec_header_value_ok(spec_bearer(token)) <==> spec_header_value_ok(token),
{
    reveal_strlit("Bearer ");
    let b = "Bearer "@;
    assert(b.len() == 7);
    assert(spec_header_char_ok(b[0]) && spec_header_char_ok(b[1]) && spec_header_char_ok(
        b[2],
    ) && spec_header_char_ok(b[3]) && spec_header_char_ok(b[4]) && spec_header_char_ok(b[5])
        && spec_header_char_ok(b[6]));
    if spec_header_value_ok(spec_bearer(token)) {
        assert forall|i: int| 0 <= i < token.len() implies spec_header_char_ok(
            token[i],
        ) by {
            assert(spec_bearer(token)[7 + i] == token[i]);
            assert(spec_header_char_ok(spec_bearer(token)[7 + i]));
        }
    }
    if spec_header_value_ok(token) {
        assert forall|i: int| 0 <= i < spec_bearer(token).len() implies spec_header_char_ok(
            spec_bearer(token)[i],
        ) by {
            if i < 7 {
                assert(spec_bearer(token)[i] == b[i]);
            } else {
                assert(spec_bearer(token)[i] == token[i - 7]);
            }
        }
    }
}

/// The relative reference that is resolved against the base URL for
/// an update of the given event.
pub open spec fn spec_update_path(event_id: Seq<char>) -> Seq<char> {
    "events/"@ + event_id + "/update"@
}

/// A fully composed update request, ready to be sent: the resolved
/// URL, the two header values, and the JSON body.
#[derive(Debug)]
pub struct PreparedRequest {
    /// The resolved request URL.
    pub url: url::Url,
    /// The value of the `Authorization` header.
    pub auth_header: String,
    /// The value of the `Content-Type` header.
    pub content_type: String,
    /// The JSON body.
    pub body: String,
}

/// Client for reporting event status updates to the monitoring
/// backend.  It holds no mutable state: one client may serve many
/// independent calls.
#[derive(Debug, Clone)]
pub struct ProbeClient {
    /// Base URL the update endpoint is resolved against.
    pub base_url: url::Url,
    /// Probe token for authentication, stored verbatim.
    pub probe_token: String,
    /// Transport handle used to issue the requests.
    pub http_client: reqwest::Client,
}

impl ProbeClient {
    /// A client with the default transport: construction fails with
    /// `UrlParse` exactly when the base URL string is not an absolute
    /// URL, and the transport handle is only built after the URL has
    /// been accepted.  No network I/O happens here.
    pub fn new(base_url_str: &str, probe_token: String) -> (r: Result<ProbeClient, Error>)
        ensures
            r matches Ok(c) ==> c.probe_token@ == probe_token@ && url_parse_str(
                base_url_str@,
            ) == Some(url_str_of(c.base_url)),
            !url_parse_ok(base_url_str@) <==> (r matches Err(e) && e matches Error::UrlParse(
                _,
            )),
            url_parse_ok(base_url_str@) && r is Err ==> (r matches Err(e) && e matches
                Error::Request { status, .. } && status is None),
    {
        let base_url = match parse_url(base_url_str) {
            Ok(u) => u,
            Err(m) => {
                return Err(Error::UrlParse(m));
            },
        };
        let http_client = match default_transport() {
            Ok(c) => c,
            Err(m) => {
                return Err(Error::Request { message: m, status: None });
            },
        };
        Ok(ProbeClient { base_url, probe_token, http_client })
    }

    /// A client around a caller-supplied, pre-configured transport
    /// handle: construction fails with `UrlParse` exactly when the
    /// base URL string is not an absolute URL.
    pub fn with_http_client(
        base_url_str: &str,
        probe_token: String,
        http_client: reqwest::Client,
    ) -> (r: Result<ProbeClient, Error>)
        ensures
            url_parse_ok(base_url_str@) <==> r is Ok,
            r matches Ok(c) ==> c.probe_token@ == probe_token@ && url_parse_str(
                base_url_str@,
            ) == Some(url_str_of(c.base_url)),
            r matches Err(e) ==> e matches Error::UrlParse(_),
    {
        let base_url = match parse_url(base_url_str) {
            Ok(u) => u,
            Err(m) => {
                return Err(Error::UrlParse(m));
            },
        };
        Ok(ProbeClient { base_url, probe_token, http_client })
    }

    /// Composes the authenticated update request for an event: the
    /// path `events/{event_id}/update` resolved against the base URL,
    /// the bearer and content-type headers, and the serialized JSON
    /// body.  A token with characters illegal in a header value is
    /// refused with `Validation` before anything is sent; a URL that
    /// does not resolve is refused with `UrlParse`.
    pub fn prepare_update_request(
        &self,
        event_id: &str,
        payload: &EventStatusUpdatePayload,
    ) -> (r: Result<PreparedRequest, Error>)
        ensures
            r is Ok <==> (url_join_str(url_str_of(self.base_url), spec_update_path(event_id@))
                is Some && spec_header_value_ok(spec_bearer(self.probe_token@))
                && spec_payload_json_defined(*payload)),
            r matches Ok(p) ==> {
                &&& url_join_str(url_str_of(self.base_url), spec_update_path(event_id@))
                    == Some(url_str_of(p.url))
                &&& p.auth_header@ == spec_bearer(self.probe_token@)
                &&& spec_header_value_ok(p.auth_header@)
                &&& p.content_type@ == "application/json"@
                &&& p.body@ == spec_payload_json(*payload)
            },
            (r matches Err(e) && e matches Error::UrlParse(_)) <==> url_join_str(
                url_str_of(self.base_url),
                spec_update_path(event_id@),
            ) is None,
            (r matches Err(e) && e matches Error::Validation(_)) <==> (url_join_str(
                url_str_of(self.base_url),
                spec_update_path(event_id@),
            ) is Some && (!spec_header_value_ok(spec_bearer(self.probe_token@))
                || !spec_payload_json_defined(*payload))),
    {
        let mut rel: String = "events/".to_owned();
        rel.append(event_id);
        rel.append("/update");
        assert(rel@ =~= spec_update_path(event_id@));
        let url = match join_url(&self.base_url, rel.as_str()) {
            Ok(u) => u,
            Err(m) => {
                return Err(Error::UrlParse(m));
            },
        };
        let mut auth: String = "Bearer ".to_owned();
        auth.append(self.probe_token.as_str());
        if !header_value_ok(auth.as_str()) {
            return Err(
                Error::Validation(
                    "the probe token holds characters that are illegal in an HTTP header value".to_owned(),
                ),
            );
        }
        let body = match payload.to_json() {
            Ok(b) => b,
            Err(e) => {
                return Err(e);
            },
        };
        Ok(
            PreparedRequest {
                url,
                auth_header: auth,
                content_type: "application/json".to_owned(),
                body,
            },
        )
    }
}

/// The message of an `Api` error: the `error` field of the body when
/// the body is a JSON object holding a string there, the raw body
/// text verbatim otherwise, and a fixed placeholder when the body
/// could not even be read as text.
pub open spec fn spec_api_message(body: Option<String>) -> Seq<char> {
    match body {
        Option::None => "Unknown error"@,
        Option::Some(t) => match json_str_field(t@, "error"@) {
            Option::Some(m) => m,
            Option::None => t@,
        },
    }
}

/// Classifies an HTTP response to an update request.  A 2xx status
/// has its body decoded as the consolidated state, and a decode
/// failure is an `UnexpectedResponse`; every other status becomes an
/// `Api` error carrying that status and the extracted or fallback
/// message.  `body` is `None` when the response body could not be
/// read as text.
pub fn interpret_response(status: u16, body: Option<String>) -> (r: Result<
    EventConsolidatedState,
    Error,
>)
    ensures
        200 <= status < 300 ==> match body {
            Some(t) => {
                &&& (r is Ok <==> spec_state_fields_ok(t@))
                &&& (r matches Ok(st) ==> spec_state_matches(st, t@))
                &&& (r matches Err(e) ==> e matches Error::UnexpectedResponse(_))
            },
            None => r matches Err(e) && e matches Error::UnexpectedResponse(_),
        },
        !(200 <= status < 300) ==> (r matches Err(e) && e matches Error::Api {
            status: st,
            message: m,
        } && st == status && m@ == spec_api_message(body)),
{
    if 200 <= status && status < 300 {
        match body {
            Some(t) => decode_state(t.as_str()),
            None => Err(
                Error::UnexpectedResponse("the response body could not be read".to_owned()),
            ),
        }
    } else {
        let message = match body {
            Some(t) => match error_response_from_body(t.as_str()) {
                Some(er) => er.error,
                None => t,
            },
            None => "Unknown error".to_owned(),
        };
        Err(Error::Api { status, message })
    }
}

} // verus!
