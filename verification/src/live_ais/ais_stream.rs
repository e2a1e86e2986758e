//! The live AIS client core: OAuth2 token lifecycle with proactive refresh,
//! request building for the report window, and interpretation of fetch
//! outcomes.
//!
//! The HTTP round trips themselves are performed by the surrounding
//! application; it reports each outcome back as plain values, and every
//! decision taken on those values is verified here.

use vstd::prelude::*;

use crate::live_ais::response_structs::{AISLatestResponses, GetAISLatestResponse, TokenResponse};

verus! {

/// Seconds of remaining validity below which a token is refreshed before
/// use.
pub const REFRESH_SKEW_SECONDS: i64 = 300;

/// Latest timestamp the request formatter accepts: the first second of year
/// 10000, beyond which the upstream's four-digit-year format does not reach.
pub const MAX_FORMAT_TIMESTAMP: i64 = 253402300800;

/// The ways a token fetch or report fetch can fail.
#[derive(Debug, Clone, PartialEq)]
pub enum ResponseErrorMessages {
    /// The HTTP transport failed before any status was received.
    NetworkError(String),
    /// The request URL was rejected by the URL parser; carries the rejected
    /// text.
    InvalidUrl(String),
    /// The endpoint answered with a status other than 200.
    UnexpectedStatusCode(u16),
    /// The endpoint answered 200 but its body could not be decoded.
    DeserializationError(String),
    /// A report fetch was attempted while no token was held.
    NoToken,
}

/// The OAuth2 scope requested from the identity endpoint.
#[derive(Debug, Clone, Copy, PartialEq, Eq)]
pub enum ScopeType {
    Ais,
    Api,
}

impl ScopeType {
    /// The scope's wire name.
    pub open spec fn spec_str(self) -> Seq<char> {
        match self {
            ScopeType::Ais => "ais"@,
            ScopeType::Api => "api"@,
        }
    }

    pub fn as_str(&self) -> (r: &'static str)
        ensures
            r@ == self.spec_str(),
    {
        match self {
            ScopeType::Ais => "ais",
            ScopeType::Api => "api",
        }
    }
}

/// The canonical serialization of `s` as an absolute URL, or `None` where
/// the URL parser rejects `s`; a function of the text alone.
pub uninterp spec fn url_normal_of(s: Seq<char>) -> Option<Seq<char>>;

/// Relies on `url::Url::parse` and on the crate's canonical serialization
/// of a parsed URL (`From<Url> for String`): parsing is deterministic, and
/// the serialization is the string the parser stored.
#[verifier::external_body]
fn normalize_url(s: &str) -> (r: Option<String>)
    ensures
        match r {
            Some(u) => url_normal_of(s@) == Some(u@),
            None => url_normal_of(s@) is None,
        },
{
    match url::Url::parse(s) {
        Ok(u) => Some(String::from(u)),
        Err(_) => None,
    }
}

/// The text `t` renders to under the upstream's `since` format
/// `YYYY-MM-DDTHH:MM:SS` (UTC, second precision); a function of the
/// timestamp alone.
pub uninterp spec fn utc_second_format_of(t: i64) -> Seq<char>;

/// Relies on chrono's `DateTime::<Utc>::from_timestamp` (total for the
/// admitted range) and its strftime-style formatting with
/// `"%Y-%m-%dT%H:%M:%S"`: the rendered text depends on the timestamp alone.
#[verifier::external_body]
fn format_utc_second(t: i64) -> (r: String)
    requires
        0 <= t < MAX_FORMAT_TIMESTAMP,
    ensures
        r@ == utc_second_format_of(t),
{
    match chrono::DateTime::<chrono::Utc>::from_timestamp(t, 0) {
        Some(dt) => dt.format("%Y-%m-%dT%H:%M:%S").to_string(),
        None => String::new(),
    }
}

/// The report-window request URL before normalization: the fixed base path
/// with the window start appended as the `since` query parameter.
pub open spec fn spec_latest_ais_request(since: i64) -> Seq<char> {
    "https://live.ais.barentswatch.no/v1/latest/ais?since="@ + utc_second_format_of(since)
}

/// Builds the report-window request URL for the given window start.
pub fn build_latest_ais_url(since: i64) -> (r: Result<String, ResponseErrorMessages>)
    requires
        0 <= since < MAX_FORMAT_TIMESTAMP,
    ensures
        match r {
            Ok(u) => url_normal_of(spec_latest_ais_request(since)) == Some(u@),
            Err(e) => {
                &&& e matches ResponseErrorMessages::InvalidUrl(raw)
                &&& raw@ == spec_latest_ais_request(since)
                &&& url_normal_of(spec_latest_ais_request(since)) is None
            },
        },
{
    let mut raw = String::from_str("https://live.ais.barentswatch.no/v1/latest/ais?since=");
    let formatted = format_utc_second(since);
    raw.append(formatted.as_str());
    match normalize_url(raw.as_str()) {
        Some(u) => Ok(u),
        None => Err(ResponseErrorMessages::InvalidUrl(raw)),
    }
}

/// The fixed identity endpoint that token fetches POST to.
pub open spec fn spec_token_endpoint() -> Seq<char> {
    "https://id.barentswatch.no/connect/token"@
}

/// The identity endpoint URL in canonical form.
pub fn token_endpoint_url() -> (r: Result<String, ResponseErrorMessages>)
    ensures
        match r {
            Ok(u) => url_normal_of(spec_token_endpoint()) == Some(u@),
            Err(e) => {
                &&& e matches ResponseErrorMessages::InvalidUrl(raw)
                &&& raw@ == spec_token_endpoint()
                &&& url_normal_of(spec_token_endpoint()) is None
            },
        },
{
    let raw = String::from_str("https://id.barentswatch.no/connect/token");
    match normalize_url(raw.as_str()) {
        Some(u) => Ok(u),
        None => Err(ResponseErrorMessages::InvalidUrl(raw)),
    }
}

/// What one POST to the identity endpoint came back with, as the
/// application observed it.
#[derive(Debug, PartialEq)]
pub enum TokenFetchOutcome {
    /// A status was received; `body` is the decoded token response, or the
    /// decoder's message where the body was malformed.
    Delivered { status: u16, body: Result<TokenResponse, String> },
    /// The transport failed before any status was received.
    TransportFailed { message: String },
}

/// What one GET of the report window came back with, as the application
/// observed it.
#[derive(Debug, PartialEq)]
pub enum AisFetchOutcome {
    /// A status was received; `body` is the decoded record array, or the
    /// decoder's message where the body was malformed.
    Delivered { status: u16, body: Result<AISLatestResponses, String> },
    /// The transport failed before any status was received.
    TransportFailed { message: String },
}

/// The client's token state together with the credentials it authenticates
/// with. Time is supplied by the caller as seconds of the UNIX epoch, so
/// that the refresh policy is a function of its arguments.
#[derive(Debug, Clone, PartialEq)]
pub struct AisLiveAPI {
    pub grant_type: String,
    pub client_id: String,
    pub client_secret: String,
    pub scope: ScopeType,
    /// The bearer credential of the last successful fetch, if any.
    pub token: Option<String>,
    /// Validity in seconds granted with that credential.
    pub token_expires_in: Option<i64>,
    /// When that credential was stored, in epoch seconds.
    pub token_fetched_time: Option<i64>,
}

/// The proactive refresh policy: a fetch is needed when no token was ever
/// stored, or when the time elapsed since it was stored has reached its
/// granted validity less the refresh skew.
pub open spec fn spec_needs_refresh(api: AisLiveAPI, now: i64) -> bool {
    match (api.token_fetched_time, api.token_expires_in) {
        (Some(t0), Some(expires_in)) => now - t0 >= expires_in - REFRESH_SKEW_SECONDS,
        _ => true,
    }
}

/// The state after a successful token fetch at `now`: the token is replaced
/// wholesale, the credentials are untouched.
pub open spec fn spec_store_token(api: AisLiveAPI, resp: TokenResponse, now: i64) -> AisLiveAPI {
    AisLiveAPI {
        token: Some(resp.access_token),
        token_expires_in: Some(resp.expires_in),
        token_fetched_time: Some(now),
        ..api
    }
}

impl AisLiveAPI {
    /// A fresh client that has fetched no token yet.
    pub fn new(
        grant_type: String,
        client_id: String,
        client_secret: String,
        scope: ScopeType,
    ) -> (r: Self)
        ensures
            r.grant_type == grant_type,
            r.client_id == client_id,
            r.client_secret == client_secret,
            r.scope == scope,
            r.token is None,
            r.token_expires_in is None,
            r.token_fetched_time is None,
    {
        AisLiveAPI {
            grant_type,
            client_id,
            client_secret,
            scope,
            token: None,
            token_expires_in: None,
            token_fetched_time: None,
        }
    }

    /// Whether the refresh policy calls for a fetch at time `now`.
    pub fn needs_refresh(&self, now: i64) -> (r: bool)
        ensures
            r == spec_needs_refresh(*self, now),
    {
        match (self.token_fetched_time, self.token_expires_in) {
            (Some(t0), Some(expires_in)) => {
                (now as i128) - (t0 as i128) >= (expires_in as i128) - (
                REFRESH_SKEW_SECONDS as i128)
            },
            _ => true,
        }
    }

    /// The form fields of a `client_credentials` token request, in a fixed
    /// order.
    pub fn token_request_form(&self) -> (r: Vec<(String, String)>)
        ensures
            r@.len() == 4,
            r@[0].0@ == "grant_type"@ && r@[0].1@ == self.grant_type@,
            r@[1].0@ == "client_id"@ && r@[1].1@ == self.client_id@,
            r@[2].0@ == "client_secret"@ && r@[2].1@ == self.client_secret@,
            r@[3].0@ == "scope"@ && r@[3].1@ == self.scope.spec_str(),
    {
        let mut form: Vec<(String, String)> = Vec::new();
        form.push((String::from_str("grant_type"), self.grant_type.clone()));
        form.push((String::from_str("client_id"), self.client_id.clone()));
        form.push((String::from_str("client_secret"), self.client_secret.clone()));
        form.push((String::from_str("scope"), String::from_str(self.scope.as_str())));
        form
    }

    /// Stores a freshly granted token, replacing any previous one.
    pub fn store_token(&mut self, token_response: TokenResponse, now: i64)
        ensures
            *final(self) == spec_store_token(*old(self), token_response, now),
    {
        self.token = Some(token_response.access_token);
        self.token_expires_in = Some(token_response.expires_in);
        self.token_fetched_time = Some(now);
    }

    /// Applies the outcome of one POST to the identity endpoint, observed
    /// at time `now`.
    ///
    /// Only a delivered 200 with a well-formed body changes the state; on
    /// every failure the previous token state is left exactly as it was.
    pub fn apply_token_fetch(&mut self, outcome: TokenFetchOutcome, now: i64) -> (r: Result<
        (),
        ResponseErrorMessages,
    >)
        ensures
            match outcome {
                TokenFetchOutcome::Delivered { status, body } => {
                    if status == 200 {
                        match body {
                            Ok(resp) => r is Ok && *final(self) == spec_store_token(
                                *old(self),
                                resp,
                                now,
                            ),
                            Err(m) => {
                                &&& r == Result::<(), ResponseErrorMessages>::Err(
                                    ResponseErrorMessages::DeserializationError(m),
                                )
                                &&& *final(self) == *old(self)
                            },
                        }
                    } else {
                        &&& r == Result::<(), ResponseErrorMessages>::Err(
                            ResponseErrorMessages::UnexpectedStatusCode(status),
                        )
                        &&& *final(self) == *old(self)
                    }
                },
                TokenFetchOutcome::TransportFailed { message } => {
                    &&& r == Result::<(), ResponseErrorMessages>::Err(
                        ResponseErrorMessages::NetworkError(message),
                    )
                    &&& *final(self) == *old(self)
                },
            },
    {
        match outcome {
            TokenFetchOutcome::Delivered { status, body } => {
                if status == 200 {
                    match body {
                        Ok(resp) => {
                            self.store_token(resp, now);
                            Ok(())
                        },
                        Err(m) => Err(ResponseErrorMessages::DeserializationError(m)),
                    }
                } else {
                    Err(ResponseErrorMessages::UnexpectedStatusCode(status))
                }
            },
            TokenFetchOutcome::TransportFailed { message } => Err(
                ResponseErrorMessages::NetworkError(message),
            ),
        }
    }

    /// The bearer credential to attach to a report fetch, or `NoToken`
    /// where no successful token fetch ever happened.
    pub fn bearer_token(&self) -> (r: Result<String, ResponseErrorMessages>)
        ensures
            match self.token {
                Some(t) => r == Result::<String, ResponseErrorMessages>::Ok(t),
                None => r == Result::<String, ResponseErrorMessages>::Err(
                    ResponseErrorMessages::NoToken,
                ),
            },
    {
        match &self.token {
            Some(t) => Ok(t.clone()),
            None => Err(ResponseErrorMessages::NoToken),
        }
    }
}

/// Interprets what one GET of the report window came back with.
///
/// A delivered 200 with a well-formed body is the only success: the records
/// are returned as present together with their count. A 200 with a
/// malformed body is fatal for the run, any other status is
/// `UnexpectedStatusCode`, and a transport failure is `NetworkError`.
pub fn interpret_latest_ais_response(api_endpoint: String, outcome: AisFetchOutcome) -> (r: Result<
    GetAISLatestResponse,
    ResponseErrorMessages,
>)
    ensures
        match outcome {
            AisFetchOutcome::Delivered { status, body } => {
                if status == 200 {
                    match body {
                        Ok(records) => {
                            &&& r matches Ok(resp)
                            &&& resp.api_endpoint == api_endpoint
                            &&& resp.status_code == 200
                            &&& resp.content_length == Some(records.len())
                            &&& resp.ais_latest_responses == Some(records)
                        },
                        Err(m) => r == Result::<GetAISLatestResponse, ResponseErrorMessages>::Err(
                            ResponseErrorMessages::DeserializationError(m),
                        ),
                    }
                } else {
                    r == Result::<GetAISLatestResponse, ResponseErrorMessages>::Err(
                        ResponseErrorMessages::UnexpectedStatusCode(status),
                    )
                }
            },
            AisFetchOutcome::TransportFailed { message } => r == Result::<
                GetAISLatestResponse,
                ResponseErrorMessages,
            >::Err(ResponseErrorMessages::NetworkError(message)),
        },
{
    match outcome {
        AisFetchOutcome::Delivered { status, body } => {
            if status == 200 {
                match body {
                    Ok(records) => {
                        let count = records.len();
                        Ok(
                            GetAISLatestResponse {
                                api_endpoint,
                                status_code: 200,
                                content_length: Some(count),
                                ais_latest_responses: Some(records),
                            },
                        )
                    },
                    Err(m) => Err(ResponseErrorMessages::DeserializationError(m)),
                }
            } else {
                Err(ResponseErrorMessages::UnexpectedStatusCode(status))
            }
        },
        AisFetchOutcome::TransportFailed { message } => Err(
            ResponseErrorMessages::NetworkError(message),
        ),
    }
}

/// With no token ever stored, the refresh policy always calls for a fetch.
pub proof fn lemma_initial_state_fetches(api: AisLiveAPI, now: i64)
    requires
        api.token_fetched_time is None,
    ensures
        spec_needs_refresh(api, now),
{
}

/// A token stored at `t0` stays fresh strictly within its validity window
/// less the refresh skew, so a second acquisition before
/// `t0 + expires_in - 300` fetches nothing: two calls within the window
/// issue exactly one fetch.
pub proof fn lemma_no_refetch_within_window(
    api: AisLiveAPI,
    resp: TokenResponse,
    t0: i64,
    t1: i64,
)
    requires
        t1 - t0 < resp.expires_in - REFRESH_SKEW_SECONDS,
    ensures
        !spec_needs_refresh(spec_store_token(api, resp, t0), t1),
{
}

/// Once the elapsed time reaches the validity window less the refresh skew,
/// the next acquisition fetches again.
pub proof fn lemma_refetch_after_window(api: AisLiveAPI, resp: TokenResponse, t0: i64, t1: i64)
    requires
        t1 - t0 >= resp.expires_in - REFRESH_SKEW_SECONDS,
    ensures
        spec_needs_refresh(spec_store_token(api, resp, t0), t1),
{
}

} // verus!
