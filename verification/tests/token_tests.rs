use barents::live_ais::ais_stream::{
    AisLiveAPI, ResponseErrorMessages, ScopeType, TokenFetchOutcome,
};
use barents::live_ais::response_structs::TokenResponse;

fn client() -> AisLiveAPI {
    AisLiveAPI::new(
        "client_credentials".to_string(),
        "my-client".to_string(),
        "my-secret".to_string(),
        ScopeType::Ais,
    )
}

fn granted(expires_in: i64) -> TokenResponse {
    TokenResponse {
        access_token: "token-a".to_string(),
        expires_in,
        token_type: "Bearer".to_string(),
        scope: "ais".to_string(),
    }
}

#[test]
fn fresh_client_needs_a_fetch() {
    let api = client();
    assert!(api.needs_refresh(0));
    assert!(api.needs_refresh(1_700_000_000));
}

#[test]
fn two_calls_within_window_fetch_once() {
    let mut api = client();
    let mut fetches = 0;

    // First acquisition at t = 1000: no token yet, so one fetch happens.
    let t0 = 1000;
    if api.needs_refresh(t0) {
        fetches += 1;
        api.store_token(granted(3600), t0);
    }
    // Second acquisition within expires_in - 300 seconds: no fetch.
    let t1 = t0 + 3600 - 300 - 1;
    if api.needs_refresh(t1) {
        fetches += 1;
    }
    assert_eq!(fetches, 1);

    // Once the threshold is reached, a second fetch happens.
    let t2 = t0 + 3600 - 300;
    if api.needs_refresh(t2) {
        fetches += 1;
        api.store_token(granted(3600), t2);
    }
    assert_eq!(fetches, 2);
}

#[test]
fn successful_fetch_stores_the_token_wholesale() {
    let mut api = client();
    let outcome = TokenFetchOutcome::Delivered {
        status: 200,
        body: Ok(granted(3600)),
    };
    let r = api.apply_token_fetch(outcome, 5000);
    assert!(r.is_ok());
    assert_eq!(api.token.as_deref(), Some("token-a"));
    assert_eq!(api.token_expires_in, Some(3600));
    assert_eq!(api.token_fetched_time, Some(5000));
    assert_eq!(api.grant_type, "client_credentials");
    assert_eq!(api.client_id, "my-client");
    assert_eq!(api.client_secret, "my-secret");
}

#[test]
fn identity_endpoint_400_leaves_token_state_unchanged() {
    let mut api = client();
    api.store_token(granted(3600), 1000);

    let outcome = TokenFetchOutcome::Delivered {
        status: 400,
        body: Err("no body decoded".to_string()),
    };
    let r = api.apply_token_fetch(outcome, 6000);
    assert_eq!(r, Err(ResponseErrorMessages::UnexpectedStatusCode(400)));
    // The old token is left exactly as it was: never a half-updated value.
    assert_eq!(api.token.as_deref(), Some("token-a"));
    assert_eq!(api.token_expires_in, Some(3600));
    assert_eq!(api.token_fetched_time, Some(1000));
}

#[test]
fn transport_failure_is_a_network_error_and_changes_nothing() {
    let mut api = client();
    let outcome = TokenFetchOutcome::TransportFailed {
        message: "connection reset".to_string(),
    };
    let r = api.apply_token_fetch(outcome, 42);
    assert_eq!(
        r,
        Err(ResponseErrorMessages::NetworkError("connection reset".to_string()))
    );
    assert_eq!(api.token, None);
    assert_eq!(api.token_fetched_time, None);
}

#[test]
fn malformed_token_body_is_a_deserialization_error() {
    let mut api = client();
    let outcome = TokenFetchOutcome::Delivered {
        status: 200,
        body: Err("missing field access_token".to_string()),
    };
    let r = api.apply_token_fetch(outcome, 42);
    assert_eq!(
        r,
        Err(ResponseErrorMessages::DeserializationError(
            "missing field access_token".to_string()
        ))
    );
    assert_eq!(api.token, None);
}

#[test]
fn bearer_token_requires_a_stored_token() {
    let mut api = client();
    assert_eq!(api.bearer_token(), Err(ResponseErrorMessages::NoToken));
    api.store_token(granted(3600), 0);
    assert_eq!(api.bearer_token(), Ok("token-a".to_string()));
}

#[test]
fn token_request_form_lists_the_credentials() {
    let api = client();
    let form = api.token_request_form();
    assert_eq!(form.len(), 4);
    assert_eq!(form[0], ("grant_type".to_string(), "client_credentials".to_string()));
    assert_eq!(form[1], ("client_id".to_string(), "my-client".to_string()));
    assert_eq!(form[2], ("client_secret".to_string(), "my-secret".to_string()));
    assert_eq!(form[3], ("scope".to_string(), "ais".to_string()));
}

#[test]
fn scope_wire_names() {
    assert_eq!(ScopeType::Ais.as_str(), "ais");
    assert_eq!(ScopeType::Api.as_str(), "api");
}
