use google_cloud::authorize::{
    ApplicationCredentials, AuthError, MetadataManager, Token, TokenManager, TokenProvider,
    TokenStep, TokenValue, ASSERTION_WINDOW_SECONDS,
};

fn test_credentials() -> ApplicationCredentials {
    ApplicationCredentials {
        cred_type: "service_account".to_string(),
        project_id: "test-project".to_string(),
        private_key_id: "key-id".to_string(),
        private_key: "not a usable pem key".to_string(),
        client_email: "robot@test-project.iam.gserviceaccount.com".to_string(),
        client_id: "1234567890".to_string(),
        auth_uri: "https://accounts.google.com/o/oauth2/auth".to_string(),
        token_uri: "https://oauth2.googleapis.com/token".to_string(),
        auth_provider_x509_cert_url: "https://www.googleapis.com/oauth2/v1/certs".to_string(),
        client_x509_cert_url: "https://www.googleapis.com/robot/v1/metadata/x509/robot"
            .to_string(),
    }
}

fn metadata_provider_with(token: &str, expiry: i64) -> TokenProvider {
    let mut m = MetadataManager::new(&["scope-a"]);
    m.current_token = Some(Token {
        value: TokenValue::Bearer(token.to_string()),
        expiry,
    });
    TokenProvider::Metadata(m)
}

#[test]
fn cached_token_answers_repeated_calls_without_exchange() {
    let p = metadata_provider_with("abc", 100);
    let mut exchanges = 0;
    let mut answers = Vec::new();
    for now in [10i64, 50, 99, 100] {
        match p.begin_token(now).unwrap() {
            TokenStep::Cached(s) => answers.push(s),
            _ => exchanges += 1,
        }
    }
    assert_eq!(exchanges, 0);
    for s in &answers {
        assert_eq!(s, "Bearer abc");
    }
}

#[test]
fn expired_token_triggers_one_exchange_with_later_expiry() {
    let mut p = metadata_provider_with("abc", 100);
    match p.begin_token(101).unwrap() {
        TokenStep::FetchMetadata(req) => {
            assert_eq!(req.header_name, "Metadata-Flavor");
            assert_eq!(req.header_value, "Google");
        }
        _ => panic!("an exchange was due"),
    }
    let body = br#"{"access_token":"fresh","expires_in":3600}"#;
    let s = p.complete_token(101, 101, body).unwrap();
    assert_eq!(s, "Bearer fresh");
    match &p {
        TokenProvider::Metadata(m) => {
            let t = m.current_token.as_ref().unwrap();
            assert_eq!(t.expiry, 101 + 3600);
            assert!(t.expiry > 100);
        }
        _ => panic!("the strategy never changes"),
    }
}

#[test]
fn assertion_expiry_is_issuance_plus_45_minutes() {
    let mut m = TokenManager::new(test_credentials(), &["scope-a"]);
    // The server reports a lifetime; the assertion strategy ignores it.
    let body = br#"{"access_token":"tok","expires_in":7}"#;
    let s = m.complete_exchange(1000, body).unwrap();
    assert_eq!(s, "Bearer tok");
    let t = m.current_token.as_ref().unwrap();
    assert_eq!(t.expiry, 1000 + 45 * 60);
    assert_eq!(ASSERTION_WINDOW_SECONDS, 45 * 60);
}

#[test]
fn metadata_expiry_is_completion_plus_reported_lifetime() {
    let mut m = MetadataManager::new(&["scope-a"]);
    let body = br#"{"access_token":"tok","expires_in":1234}"#;
    m.complete_exchange(50, body).unwrap();
    assert_eq!(m.current_token.as_ref().unwrap().expiry, 50 + 1234);
}

#[test]
fn absent_expires_in_reads_as_zero() {
    let mut m = MetadataManager::new(&["scope-a"]);
    let body = br#"{"access_token":"tok"}"#;
    m.complete_exchange(50, body).unwrap();
    assert_eq!(m.current_token.as_ref().unwrap().expiry, 50);
    // Already past expiry: the very next call is a refresh again.
    assert!(m.cached_token(51).is_none());
    assert_eq!(m.cached_token(50).unwrap(), "Bearer tok");
}

#[test]
fn malformed_body_fails_and_keeps_the_cache() {
    let stale = Token {
        value: TokenValue::Bearer("stale".to_string()),
        expiry: 100,
    };
    let mut m = MetadataManager::new(&["scope-a"]);
    m.current_token = Some(stale.clone());
    for body in [
        &b"not json at all"[..],
        br#"{"expires_in":3600}"#,
        br#"{"access_token":42}"#,
        br#"{"access_token":"tok","expires_in":"soon"}"#,
        br#"["access_token","tok"]"#,
    ] {
        let r = m.complete_exchange(500, body);
        assert_eq!(r.unwrap_err(), AuthError::MalformedResponse);
        assert_eq!(m.current_token.as_ref().unwrap(), &stale);
    }

    let mut a = TokenManager::new(test_credentials(), &["scope-a"]);
    a.current_token = Some(stale.clone());
    let r = a.complete_exchange(500, b"{");
    assert_eq!(r.unwrap_err(), AuthError::MalformedResponse);
    assert_eq!(a.current_token.as_ref().unwrap(), &stale);
}

#[test]
fn scenario_two_exchanges_across_expiry() {
    let t0 = 1_000i64;
    let mut p = TokenProvider::new(None, true, &["scope-a"]).unwrap();
    let mut exchanges = 0;

    match p.begin_token(t0).unwrap() {
        TokenStep::FetchMetadata(_) => exchanges += 1,
        _ => panic!("nothing is cached yet"),
    }
    let s1 = p
        .complete_token(t0, t0, br#"{"access_token":"tok1","expires_in":3600}"#)
        .unwrap();
    assert_eq!(s1, "Bearer tok1");

    // Still valid at expiry itself.
    match p.begin_token(t0 + 3600).unwrap() {
        TokenStep::Cached(s) => assert_eq!(s, "Bearer tok1"),
        _ => panic!("the cached token is still usable"),
    }

    let t1 = t0 + 3601;
    match p.begin_token(t1).unwrap() {
        TokenStep::FetchMetadata(_) => exchanges += 1,
        _ => panic!("the cached token has expired"),
    }
    let s2 = p
        .complete_token(t1, t1, br#"{"access_token":"tok2","expires_in":3600}"#)
        .unwrap();
    assert_eq!(s2, "Bearer tok2");
    assert_eq!(exchanges, 2);
}

#[test]
fn strategy_selection_follows_precedence() {
    let p = TokenProvider::new(Some(test_credentials()), true, &["scope-a"]).unwrap();
    assert!(matches!(p, TokenProvider::Assertion(_)));

    let p = TokenProvider::new(None, true, &["scope-a"]).unwrap();
    assert!(matches!(p, TokenProvider::Metadata(_)));

    let r = TokenProvider::new(None, false, &["scope-a"]);
    assert_eq!(r.unwrap_err(), AuthError::Config);
}

#[test]
fn unusable_private_key_fails_as_a_signing_error() {
    let m = TokenManager::new(test_credentials(), &["scope-a"]);
    let r = m.token_request(1_000);
    assert_eq!(r.unwrap_err(), AuthError::Signing);

    let p = TokenProvider::Assertion(m);
    let r = p.begin_token(1_000);
    assert_eq!(r.unwrap_err(), AuthError::Signing);
}

#[test]
fn scopes_are_joined_with_single_spaces() {
    let m = MetadataManager::new(&["scope-a", "scope-b", "scope-c"]);
    assert_eq!(m.scopes, "scope-a scope-b scope-c");
    let m = MetadataManager::new(&[]);
    assert_eq!(m.scopes, "");
    let a = TokenManager::new(test_credentials(), &["only"]);
    assert_eq!(a.scopes, "only");
}

#[test]
fn formatted_token_carries_the_bearer_scheme() {
    let v = TokenValue::Bearer("xyz".to_string());
    assert_eq!(v.formatted(), "Bearer xyz");
}

#[test]
fn metadata_request_describes_the_fixed_endpoint() {
    let m = MetadataManager::new(&["scope-a"]);
    let req = m.token_request();
    assert_eq!(
        req.url,
        "http://metadata.google.internal/computeMetadata/v1/instance/service-accounts/default/token"
    );
    assert_eq!(req.scopes, "scope-a");
}

#[test]
fn auth_errors_are_distinct_values() {
    let kinds = [
        AuthError::Config,
        AuthError::Transport,
        AuthError::MalformedResponse,
        AuthError::Signing,
    ];
    for (i, a) in kinds.iter().enumerate() {
        for (j, b) in kinds.iter().enumerate() {
            assert_eq!(i == j, a == b);
        }
    }
}
