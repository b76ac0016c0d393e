use livekit_api::access_token::TokenVerifier;
use tokenserver::discovery::ServiceConfig;
use tokenserver::grant::{claim_of_token, issue, join_claim, IssuanceError, SignerCredentials, TokenClaims};
use tokenserver::query::JoinRequest;
use tokenserver::router::{handle_create_token, reply_for, TokenReply};
use tokenserver::settings::{load_config, parse_port, port_from_text, ConfigError};

fn creds(key: &str, secret: &str) -> SignerCredentials {
    SignerCredentials::new(key.to_string(), secret.to_string())
}

fn pairs(items: &[(&str, &str)]) -> Vec<(String, String)> {
    items.iter().map(|(k, v)| (k.to_string(), v.to_string())).collect()
}

fn assert_join_only(claim: &TokenClaims, issuer: &str, room: &str, identity: &str) {
    assert_eq!(claim.issuer, issuer);
    assert_eq!(claim.identity, identity);
    let v = &claim.video;
    assert_eq!(v.room, room);
    assert!(v.room_join);
    assert!(!v.room_create && !v.room_list && !v.room_record && !v.room_admin);
    assert!(!v.ingress_admin && !v.hidden && !v.recorder && !v.agent);
    assert_eq!(v.destination_room, "");
    assert_eq!((v.can_publish, v.can_subscribe, v.can_publish_data, v.can_update_own_metadata), (None, None, None, None));
    assert!(v.can_publish_sources.is_empty());
}

fn config(fishnet: Option<&str>, livekit: Option<&str>) -> ServiceConfig {
    load_config(
        fishnet.map(|s| s.to_string()),
        livekit.map(|s| s.to_string()),
        Some("k1".to_string()),
        Some("s1".to_string()),
        Some("7880".to_string()),
    )
    .unwrap()
}

#[test]
fn issued_token_carries_join_claim() {
    let token = issue(&creds("k1", "s1"), "lobby", "alice").unwrap();
    assert!(!token.is_empty());
    let claim = claim_of_token(&token).unwrap();
    assert_join_only(&claim, "k1", "lobby", "alice");
}

#[test]
fn issued_token_verifies_with_the_key_pair() {
    let token = issue(&creds("k1", "s1"), "lobby", "alice").unwrap();
    let claims = TokenVerifier::with_api_key("k1", "s1").verify(&token).unwrap();
    assert_eq!(claims.sub, "alice");
    assert_eq!(claims.iss, "k1");
    assert_eq!(claims.video.room, "lobby");
    assert!(claims.video.room_join);
    assert!(!claims.video.room_admin);
    assert!(!claims.video.room_record);
    assert!(!claims.video.ingress_admin);
    assert!(TokenVerifier::with_api_key("k1", "other").verify(&token).is_err());
}

#[test]
fn request_token_scenario() {
    let reply = handle_create_token(&pairs(&[("room_name", "lobby"), ("identity", "alice")]), &creds("k1", "s1"));
    assert_eq!(reply.status(), 200);
    match reply {
        TokenReply::Issued { token } => {
            assert!(!token.is_empty());
            let claim = claim_of_token(&token).unwrap();
            assert_join_only(&claim, "k1", "lobby", "alice");
        }
        other => panic!("unexpected reply {:?}", other),
    }
}

#[test]
fn missing_identity_is_rejected() {
    let reply = handle_create_token(&pairs(&[("room_name", "lobby")]), &creds("k1", "s1"));
    assert_eq!(reply.status(), 400);
    assert_eq!(reply, TokenReply::Rejected { error: "Invalid query string".to_string() });
}

#[test]
fn missing_room_is_rejected_before_the_signer() {
    // With no key pair the signer would fail; a rejection shows it was never asked.
    let reply = handle_create_token(&pairs(&[("identity", "alice")]), &creds("", ""));
    assert_eq!(reply.status(), 400);
    assert!(matches!(reply, TokenReply::Rejected { .. }));
}

#[test]
fn repeated_or_empty_parameters_are_rejected() {
    let c = creds("k1", "s1");
    let twice = pairs(&[("room_name", "a"), ("room_name", "b"), ("identity", "alice")]);
    assert!(matches!(handle_create_token(&twice, &c), TokenReply::Rejected { .. }));
    let empty = pairs(&[("room_name", ""), ("identity", "alice")]);
    assert!(matches!(handle_create_token(&empty, &c), TokenReply::Rejected { .. }));
    assert!(matches!(handle_create_token(&Vec::new(), &c), TokenReply::Rejected { .. }));
}

#[test]
fn unknown_parameters_are_ignored() {
    let p = pairs(&[("x", "1"), ("identity", "bob"), ("room_name", "hall")]);
    let request = JoinRequest::from_query(&p).unwrap();
    assert_eq!(request.room_name, "hall");
    assert_eq!(request.identity, "bob");
}

#[test]
fn unset_secret_fails_issue() {
    assert_eq!(issue(&creds("k1", ""), "lobby", "alice"), Err(IssuanceError::InvalidKeys));
    assert_eq!(issue(&creds("", "s1"), "lobby", "alice"), Err(IssuanceError::InvalidKeys));
}

#[test]
fn unset_secret_gives_uniform_error_reply() {
    let reply = handle_create_token(&pairs(&[("room_name", "lobby"), ("identity", "alice")]), &creds("k1", ""));
    assert_eq!(reply.status(), 500);
    match reply {
        TokenReply::Failed { error, cause } => {
            assert_eq!(error, "Failed to create token");
            assert_eq!(cause, IssuanceError::InvalidKeys);
            assert_eq!(cause.describe(), "invalid API key or secret");
        }
        other => panic!("unexpected reply {:?}", other),
    }
}

#[test]
fn empty_room_or_identity_fails_issue() {
    assert_eq!(issue(&creds("k1", "s1"), "", "alice"), Err(IssuanceError::InvalidClaims));
    assert_eq!(issue(&creds("k1", "s1"), "lobby", ""), Err(IssuanceError::InvalidClaims));
}

#[test]
fn two_issues_are_each_valid() {
    let c = creds("k1", "s1");
    let first = issue(&c, "lobby", "alice").unwrap();
    let second = issue(&c, "lobby", "alice").unwrap();
    for token in [first, second] {
        assert!(!token.is_empty());
        let claim = claim_of_token(&token).unwrap();
        assert_join_only(&claim, "k1", "lobby", "alice");
    }
}

#[test]
fn join_claim_grants_only_join() {
    let claim = join_claim("lobby", "alice");
    assert_eq!(claim.room_name, "lobby");
    assert_eq!(claim.identity, "alice");
    assert!(claim.room_join);
}

#[test]
fn text_that_is_not_a_token_has_no_claim() {
    assert!(claim_of_token("not a token").is_none());
    assert!(claim_of_token("").is_none());
}

#[test]
fn reply_for_keeps_token() {
    assert_eq!(reply_for(Ok("abc".to_string())), TokenReply::Issued { token: "abc".to_string() });
    assert_eq!(
        reply_for(Err(IssuanceError::Encoding)),
        TokenReply::Failed { error: "Failed to create token".to_string(), cause: IssuanceError::Encoding }
    );
}

#[test]
fn server_ip_scenario() {
    let a = config(Some("10.0.0.1"), Some("10.0.0.2")).addresses();
    assert_eq!(a.fishnet_server_address, "10.0.0.1");
    assert_eq!(a.livekit_server_address, "10.0.0.2");
}

#[test]
fn addresses_repeat() {
    let c = config(Some("10.0.0.1"), Some("10.0.0.2"));
    assert_eq!(c.addresses(), c.addresses());
}

#[test]
fn unset_addresses_are_empty() {
    let a = config(None, None).addresses();
    assert_eq!(a.fishnet_server_address, "");
    assert_eq!(a.livekit_server_address, "");
}

#[test]
fn port_parsing() {
    assert_eq!(parse_port("8080"), Some(8080));
    assert_eq!(parse_port("+80"), Some(80));
    assert_eq!(parse_port("0"), Some(0));
    assert_eq!(parse_port("65535"), Some(65535));
    assert_eq!(parse_port("65536"), None);
    assert_eq!(parse_port("999999"), None);
    assert_eq!(parse_port(""), None);
    assert_eq!(parse_port("+"), None);
    assert_eq!(parse_port("-1"), None);
    assert_eq!(parse_port("80a"), None);
    assert_eq!(parse_port(" 80"), None);
}

#[test]
fn port_text_is_trimmed() {
    assert_eq!(port_from_text(" 7880\n"), Some(7880));
    assert_eq!(port_from_text("\t443 "), Some(443));
    assert_eq!(port_from_text("  "), None);
    assert_eq!(port_from_text("\u{3000}80\u{a0}"), Some(80));
    assert_eq!(port_from_text("8 0"), None);
}

#[test]
fn config_errors() {
    let none = load_config(None, None, None, None, None);
    assert_eq!(none.err(), Some(ConfigError::MissingPort));
    let bad = load_config(None, None, None, None, Some("http".to_string()));
    assert_eq!(bad.err(), Some(ConfigError::InvalidPort));
}

#[test]
fn config_keeps_settings() {
    let c = load_config(
        Some("f".to_string()),
        Some("l".to_string()),
        Some("key".to_string()),
        None,
        Some(" 9000 ".to_string()),
    )
    .unwrap();
    assert_eq!(c.port, 9000);
    assert_eq!(c.credentials.api_key, "key");
    assert_eq!(c.credentials.api_secret, "");
    assert_eq!(issue(&c.credentials, "lobby", "alice"), Err(IssuanceError::InvalidKeys));
}
