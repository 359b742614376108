use sharepoint_s3::error::GatewayError;
use sharepoint_s3::token::{
    resource_name, AccessToken, CredentialBroker, Credentials, Instant, IssuedToken, TokenDecision,
};

fn at(secs: i64, nanos: u32) -> Instant {
    Instant { secs, nanos }
}

fn token(value: &str, expires_at: Instant) -> AccessToken {
    AccessToken { value: value.to_string(), expires_at }
}

fn issued(value: &str, expires_at: i64) -> Result<IssuedToken, String> {
    Ok(IssuedToken { access_token: value.to_string(), expires_at })
}

#[test]
fn instants_are_ordered_by_second_then_nanosecond() {
    assert!(at(1, 0).is_before(&at(2, 0)));
    assert!(at(1, 999_999_999).is_before(&at(2, 0)));
    assert!(at(1, 5).is_before(&at(1, 6)));
    assert!(!at(1, 5).is_before(&at(1, 5)));
    assert!(!at(2, 0).is_before(&at(1, 999_999_999)));
    assert!(at(-5, 0).is_before(&at(-4, 0)));
}

#[test]
fn new_broker_asks_for_an_exchange() {
    let broker = CredentialBroker::new();
    assert_eq!(broker.token_at(at(0, 0)), TokenDecision::Exchange);
    assert_eq!(broker.get_token(), TokenDecision::Exchange);
}

#[test]
fn expired_token_leads_to_one_exchange_and_then_reuse() {
    let mut broker = CredentialBroker::new();
    broker.store(token("old", at(1_000, 0)));
    let mut exchanges = 0;
    let mut seen = Vec::new();
    for now in [at(1_500, 0), at(1_600, 0), at(4_999, 999_999_999), at(5_000, 0)] {
        match broker.token_at(now) {
            TokenDecision::Reuse(value) => seen.push(value),
            TokenDecision::Exchange => {
                exchanges += 1;
                let value = broker.install(issued(&format!("new-{}", exchanges), now.secs + 3_500));
                seen.push(value.unwrap());
            }
        }
    }
    assert_eq!(seen, vec!["new-1", "new-1", "new-1", "new-2"]);
    assert_eq!(exchanges, 2);
}

#[test]
fn token_is_valid_strictly_before_its_expiry() {
    let mut broker = CredentialBroker::new();
    broker.store(token("t", at(100, 0)));
    assert_eq!(broker.token_at(at(99, 999_999_999)), TokenDecision::Reuse("t".to_string()));
    assert_eq!(broker.token_at(at(100, 0)), TokenDecision::Exchange);
    assert_eq!(broker.token_at(at(100, 1)), TokenDecision::Exchange);
    broker.store(token("u", at(100, 500)));
    assert_eq!(broker.token_at(at(100, 499)), TokenDecision::Reuse("u".to_string()));
    assert_eq!(broker.token_at(at(100, 500)), TokenDecision::Exchange);
}

#[test]
fn store_replaces_the_cached_token() {
    let mut broker = CredentialBroker::new();
    broker.store(token("first", at(100, 0)));
    broker.store(token("second", at(50, 0)));
    assert_eq!(broker.token_at(at(10, 0)), TokenDecision::Reuse("second".to_string()));
    assert_eq!(broker.token_at(at(60, 0)), TokenDecision::Exchange);
}

#[test]
fn installed_token_expires_at_the_second_of_its_claim() {
    let mut broker = CredentialBroker::new();
    assert_eq!(broker.install(issued("abc", 1_700_000_000)), Ok("abc".to_string()));
    assert_eq!(
        broker.token_at(at(1_699_999_999, 999_999_999)),
        TokenDecision::Reuse("abc".to_string())
    );
    assert_eq!(broker.token_at(at(1_700_000_000, 0)), TokenDecision::Exchange);
}

#[test]
fn claims_before_the_epoch_are_taken_as_they_are() {
    let mut broker = CredentialBroker::new();
    assert_eq!(broker.install(issued("abc", -10)), Ok("abc".to_string()));
    assert_eq!(broker.token_at(at(-11, 0)), TokenDecision::Reuse("abc".to_string()));
    assert_eq!(broker.token_at(at(-10, 0)), TokenDecision::Exchange);
}

#[test]
fn claim_out_of_range_is_an_authentication_failure() {
    let mut broker = CredentialBroker::new();
    broker.store(token("kept", at(100, 0)));
    for exp in [i64::MAX, i64::MIN] {
        assert_eq!(
            broker.install(issued("abc", exp)),
            Err(GatewayError::AuthFailure("the expiry claim is out of range".to_string()))
        );
    }
    assert_eq!(broker.token_at(at(10, 0)), TokenDecision::Reuse("kept".to_string()));
}

#[test]
fn failed_exchange_is_an_authentication_failure() {
    let mut broker = CredentialBroker::new();
    broker.store(token("kept", at(100, 0)));
    assert_eq!(
        broker.install(Err("issuer unreachable".to_string())),
        Err(GatewayError::AuthFailure("issuer unreachable".to_string()))
    );
    assert_eq!(broker.token_at(at(10, 0)), TokenDecision::Reuse("kept".to_string()));
}

#[test]
fn accept_caches_with_an_instant_and_refuses_without() {
    let mut broker = CredentialBroker::new();
    assert_eq!(broker.accept("a".to_string(), Some(at(10, 7))), Ok("a".to_string()));
    assert_eq!(broker.token_at(at(10, 6)), TokenDecision::Reuse("a".to_string()));
    assert_eq!(broker.token_at(at(10, 7)), TokenDecision::Exchange);
    assert_eq!(
        broker.accept("b".to_string(), None),
        Err(GatewayError::AuthFailure("the expiry claim is out of range".to_string()))
    );
    assert_eq!(broker.token_at(at(0, 0)), TokenDecision::Reuse("a".to_string()));
}

#[test]
fn clock_of_the_machine_decides_get_token() {
    let mut broker = CredentialBroker::new();
    broker.store(token("long-lived", at(32_503_680_000, 0)));
    assert_eq!(broker.get_token(), TokenDecision::Reuse("long-lived".to_string()));
    broker.store(token("long-gone", at(946_684_800, 0)));
    assert_eq!(broker.get_token(), TokenDecision::Exchange);
}

#[test]
fn exchange_request_posts_the_client_credentials() {
    let credentials = Credentials {
        tenant: "contoso".to_string(),
        client_id: "id-1".to_string(),
        client_secret: "hush".to_string(),
    };
    let request = credentials.exchange_request();
    assert_eq!(request.url, "https://login.microsoftonline.com/contoso/oauth2/v2.0/token");
    assert_eq!(
        request.form,
        vec![
            ("client_id".to_string(), "id-1".to_string()),
            ("scope".to_string(), "https://graph.microsoft.com/.default".to_string()),
            ("client_secret".to_string(), "hush".to_string()),
            ("grant_type".to_string(), "client_credentials".to_string()),
        ]
    );
}

#[test]
fn resource_is_the_graph_service() {
    assert_eq!(resource_name(), "https://graph.microsoft.com");
}
