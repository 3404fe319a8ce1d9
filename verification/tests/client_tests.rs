use supabase_auth::client::AuthClient;
use supabase_auth::error::Error;
use supabase_auth::models::{Session, User};

fn demo_client() -> AuthClient {
    AuthClient::new(
        "https://example.com".to_string(),
        "anon-key".to_string(),
        "demo-signing-secret".to_string(),
    )
}

fn demo_session() -> Session {
    Session {
        access_token: "access".to_string(),
        token_type: "bearer".to_string(),
        expires_in: 3600,
        expires_at: 1700003600,
        refresh_token: "refresh".to_string(),
        user: User {
            id: "user-1".to_string(),
            email: "a@example.com".to_string(),
            phone: "".to_string(),
            created_at: "2024-01-01T00:00:00Z".to_string(),
            updated_at: "2024-01-01T00:00:00Z".to_string(),
            email_confirmed_at: None,
            phone_confirmed_at: None,
        },
    }
}

#[test]
fn new_keeps_the_configuration() {
    let client = demo_client();
    assert_eq!(client.project_url(), "https://example.com");
    assert_eq!(client.api_key(), "anon-key");
    assert_eq!(client.jwt_secret(), "demo-signing-secret");
    assert!(!client.is_authenticated());
    assert_eq!(client.session(), None);
}

#[test]
fn env_construction_fails_without_url() {
    let r = AuthClient::new_from_env_values(
        None,
        Some("k".to_string()),
        Some("s".to_string()),
    );
    assert_eq!(
        r.err(),
        Some(Error::MissingEnvVariable {
            variable: "SUPABASE_URL".to_string(),
        })
    );
}

#[test]
fn env_construction_fails_without_api_key() {
    let r = AuthClient::new_from_env_values(
        Some("https://example.com".to_string()),
        None,
        Some("s".to_string()),
    );
    assert_eq!(
        r.err(),
        Some(Error::MissingEnvVariable {
            variable: "SUPABASE_API_KEY".to_string(),
        })
    );
}

#[test]
fn env_construction_fails_without_jwt_secret() {
    let r = AuthClient::new_from_env_values(
        Some("https://example.com".to_string()),
        Some("k".to_string()),
        None,
    );
    assert_eq!(
        r.err(),
        Some(Error::MissingEnvVariable {
            variable: "SUPABASE_JWT_SECRET".to_string(),
        })
    );
}

#[test]
fn env_construction_succeeds_with_all_three() {
    let client = AuthClient::new_from_env_values(
        Some("https://example.com".to_string()),
        Some("k".to_string()),
        Some("s".to_string()),
    )
    .unwrap();
    assert_eq!(client.project_url(), "https://example.com");
    assert_eq!(client.api_key(), "k");
    assert_eq!(client.jwt_secret(), "s");
    assert!(!client.is_authenticated());
}

#[test]
fn successful_login_caches_the_session() {
    let mut client = demo_client();
    let r = client.complete_session_exchange(200, Some(demo_session()), "{}".to_string());
    assert_eq!(r, Ok(demo_session()));
    assert_eq!(client.session(), Some(demo_session()));
    assert!(client.is_authenticated());
}

#[test]
fn login_success_shape_wins_regardless_of_status() {
    let mut client = demo_client();
    let r = client.complete_session_exchange(500, Some(demo_session()), "ignored".to_string());
    assert_eq!(r, Ok(demo_session()));
    assert!(client.is_authenticated());
}

#[test]
fn failed_login_leaves_the_cache_as_it_was() {
    let mut client = demo_client();
    client
        .complete_session_exchange(200, Some(demo_session()), "{}".to_string())
        .unwrap();
    let r = client.complete_session_exchange(401, None, "{\"message\":\"bad\"}".to_string());
    assert_eq!(
        r,
        Err(Error::AuthError {
            status: 401,
            message: "bad".to_string(),
        })
    );
    assert_eq!(client.session(), Some(demo_session()));
}

#[test]
fn failed_login_on_a_fresh_client_caches_nothing() {
    let mut client = demo_client();
    let r = client.complete_session_exchange(400, None, "nope".to_string());
    assert_eq!(
        r,
        Err(Error::AuthError {
            status: 400,
            message: "nope".to_string(),
        })
    );
    assert_eq!(client.session(), None);
    assert!(!client.is_authenticated());
}

#[test]
fn successful_logout_clears_the_session() {
    let mut client = demo_client();
    client
        .complete_session_exchange(200, Some(demo_session()), "{}".to_string())
        .unwrap();
    assert!(client.is_authenticated());
    let r = client.complete_logout(204, "".to_string());
    assert_eq!(r, Ok(()));
    assert_eq!(client.session(), None);
    assert!(!client.is_authenticated());
}

#[test]
fn failed_logout_keeps_the_session() {
    let mut client = demo_client();
    client
        .complete_session_exchange(200, Some(demo_session()), "{}".to_string())
        .unwrap();
    let r = client.complete_logout(401, "{\"message\":\"expired\"}".to_string());
    assert_eq!(
        r,
        Err(Error::AuthError {
            status: 401,
            message: "expired".to_string(),
        })
    );
    assert_eq!(client.session(), Some(demo_session()));
    assert!(client.is_authenticated());
}
