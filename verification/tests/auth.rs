use vm_onoff::client_credentials::{auth_outcome, AuthResponse, ClientCredentials, Token};
use vm_onoff::provider::{Error, ServerError};
use vm_onoff::token_manager::{Record, TokenCache};

fn credentials(scopes: &[&str]) -> ClientCredentials {
    ClientCredentials {
        client_id: "id".into(),
        client_secret: "secret".into(),
        scopes: scopes.iter().map(|scope| (*scope).into()).collect(),
        tenant_id: "ten".into(),
    }
}

#[test]
fn token_request_targets_the_tenant_endpoint() {
    let request = credentials(&["s1"]).token_request();
    assert_eq!(
        request.url,
        "https://login.microsoftonline.com/ten/oauth2/v2.0/token"
    );
}

#[test]
fn token_request_body_is_form_encoded() {
    let request = credentials(&["https://management.azure.com/.default"]).token_request();
    assert_eq!(
        request.body,
        "grant_type=client_credentials&client_id=id&client_secret=secret\
         &scope=https%3A%2F%2Fmanagement.azure.com%2F.default"
    );
}

#[test]
fn token_request_joins_scopes_with_spaces() {
    let request = credentials(&["s1", "s2"]).token_request();
    assert_eq!(
        request.body,
        "grant_type=client_credentials&client_id=id&client_secret=secret&scope=s1+s2"
    );
}

#[test]
fn auth_response_expiry_counts_from_now() {
    let token = Token::from_auth_response(
        AuthResponse {
            access_token: "tok".into(),
            expires_in: 3600,
        },
        1000,
    );
    assert_eq!(token.access_token, "tok");
    assert_eq!(token.expires_at, 4600);
}

#[test]
fn auth_outcome_on_success_yields_the_token() {
    let token = auth_outcome(
        200,
        Some(AuthResponse {
            access_token: "tok".into(),
            expires_in: 60,
        }),
        40,
    )
    .unwrap();
    assert_eq!(token.access_token, "tok");
    assert_eq!(token.expires_at, 100);
}

#[test]
fn auth_outcome_on_401_carries_the_code() {
    assert!(matches!(
        auth_outcome(401, None, 0),
        Err(Error::Server(ServerError { status_code: 401 }))
    ));
}

#[test]
fn auth_outcome_without_a_body_is_a_decode_error() {
    assert!(matches!(auth_outcome(204, None, 0), Err(Error::Decode)));
}

fn record(token: &str, expires_at: u64) -> Record {
    Record {
        access_token: token.into(),
        expires_at,
    }
}

/// One simulated `get_token` call: a cache miss counts as one renewal.
fn get_token(cache: &mut TokenCache, now: u64, renewals: &mut u32, fresh: Record) -> Record {
    match cache.lookup(now) {
        Some(cached) => cached,
        None => {
            *renewals += 1;
            cache.store(fresh.clone());
            fresh
        }
    }
}

#[test]
fn first_call_renews_exactly_once() {
    let mut cache = TokenCache::new();
    let mut renewals = 0;
    let token = get_token(&mut cache, 0, &mut renewals, record("t1", 100));
    assert_eq!(renewals, 1);
    assert_eq!(token.access_token, "t1");
}

#[test]
fn call_before_expiry_performs_no_renewal() {
    let mut cache = TokenCache::new();
    let mut renewals = 0;
    get_token(&mut cache, 0, &mut renewals, record("t1", 100));
    let token = get_token(&mut cache, 99, &mut renewals, record("t2", 200));
    assert_eq!(renewals, 1);
    assert_eq!(token.access_token, "t1");
}

#[test]
fn call_after_expiry_renews_exactly_once_more() {
    let mut cache = TokenCache::new();
    let mut renewals = 0;
    get_token(&mut cache, 0, &mut renewals, record("t1", 100));
    let token = get_token(&mut cache, 100, &mut renewals, record("t2", 200));
    assert_eq!(renewals, 2);
    assert_eq!(token.access_token, "t2");
}

#[test]
fn failed_renewal_leaves_the_cache_untouched() {
    let mut cache = TokenCache::new();
    let mut renewals = 0;
    get_token(&mut cache, 0, &mut renewals, record("t1", 100));
    // A renewal failure never reaches `store`: a later call retries.
    assert!(cache.lookup(150).is_none());
    let token = get_token(&mut cache, 150, &mut renewals, record("t2", 300));
    assert_eq!(renewals, 2);
    assert_eq!(token.access_token, "t2");
}

#[test]
fn record_from_expiring_token_copies_both_fields() {
    let token = Token {
        access_token: "tok".into(),
        expires_at: 77,
    };
    let cached = Record::from_expiring_token(token);
    assert_eq!(cached.access_token, "tok");
    assert_eq!(cached.expires_at, 77);
}

#[test]
fn record_expiry_is_reached_at_the_instant() {
    let cached = record("tok", 100);
    assert!(!cached.is_expired(99));
    assert!(cached.is_expired(100));
    assert!(cached.is_expired(101));
}
