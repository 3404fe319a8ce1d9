use supabase_auth::client::AuthClient;
use supabase_auth::error::Error;
use supabase_auth::models::{
    DesktopResendParams, EmailOtpType, IdTokenCredentials, LoginAnonymouslyOptions,
    LoginEmailOtpParams, LoginWithSSO, LogoutScope, MobileOtpType, MobileResendParams,
    ResendParams, ResetPasswordOptions, SignUpWithPasswordOptions, UpdatedUser,
    VerifyEmailOtpParams, VerifyMobileOtpParams, VerifyOtpParams,
};
use supabase_auth::oauth::Provider;
use supabase_auth::request::{HttpMethod, HttpRequest};

fn demo_client() -> AuthClient {
    AuthClient::new(
        "https://example.com".to_string(),
        "anon-key".to_string(),
        "demo-signing-secret".to_string(),
    )
}

fn body_of(req: &HttpRequest) -> &str {
    req.body.as_deref().unwrap()
}

#[test]
fn email_login_request_is_shaped_exactly() {
    let client = demo_client();
    let req = client.login_with_email_request("a@example.com", "pw").unwrap();
    assert_eq!(req.method, HttpMethod::Post);
    assert_eq!(req.url, "https://example.com/auth/v1/token?grant_type=password");
    assert_eq!(req.api_key, "anon-key");
    assert_eq!(req.authorization, None);
    assert!(req.content_type_json);
    assert_eq!(
        body_of(&req),
        "{\"email\":\"a@example.com\",\"password\":\"pw\"}"
    );
}

#[test]
fn email_login_body_escapes_the_password() {
    let client = demo_client();
    let req = client
        .login_with_email_request("a@example.com", "q\"b\\c\nd\te\u{1}")
        .unwrap();
    assert_eq!(
        body_of(&req),
        "{\"email\":\"a@example.com\",\"password\":\"q\\\"b\\\\c\\nd\\te\\u0001\"}"
    );
}

#[test]
fn email_login_body_with_empty_values() {
    let client = demo_client();
    let req = client.login_with_email_request("", "").unwrap();
    assert_eq!(body_of(&req), "{\"email\":\"\",\"password\":\"\"}");
}

#[test]
fn phone_login_request_is_shaped_exactly() {
    let client = demo_client();
    let req = client.login_with_phone_request("+15550100", "pw").unwrap();
    assert_eq!(req.url, "https://example.com/auth/v1/token?grant_type=password");
    assert_eq!(body_of(&req), "{\"phone\":\"+15550100\",\"password\":\"pw\"}");
}

#[test]
fn invalid_api_key_is_rejected_before_any_request() {
    let client = AuthClient::new(
        "https://example.com".to_string(),
        "bad\nkey".to_string(),
        "s".to_string(),
    );
    let r = client.login_with_email_request("a@example.com", "pw");
    assert_eq!(r, Err(Error::InvalidHeaderValue));
}

#[test]
fn email_sign_up_request_with_no_options() {
    let client = demo_client();
    let req = client
        .sign_up_with_email_request("a@example.com", "pw", None)
        .unwrap();
    assert_eq!(req.url, "https://example.com/auth/v1/signup");
    assert_eq!(
        body_of(&req),
        "{\"email\":\"a@example.com\",\"password\":\"pw\"}"
    );
}

#[test]
fn email_sign_up_request_with_redirect_and_data() {
    let client = demo_client();
    let options = SignUpWithPasswordOptions {
        email_redirect_to: Some("https://app.example.com/welcome?x=1".to_string()),
        data: Some(vec![("display_name".to_string(), "Sam Doe".to_string())]),
    };
    let req = client
        .sign_up_with_email_request("a@example.com", "pw", Some(options))
        .unwrap();
    assert_eq!(
        req.url,
        "https://example.com/auth/v1/signup?redirect_to=https%3A%2F%2Fapp.example.com%2Fwelcome%3Fx%3D1"
    );
    assert_eq!(
        body_of(&req),
        "{\"email\":\"a@example.com\",\"password\":\"pw\",\"data\":{\"display_name\":\"Sam Doe\"}}"
    );
}

#[test]
fn phone_sign_up_request_uses_the_email_redirect_key() {
    let client = demo_client();
    let options = SignUpWithPasswordOptions {
        email_redirect_to: Some("https://app.example.com/".to_string()),
        data: None,
    };
    let req = client
        .sign_up_with_phone_request("+15550100", "pw", Some(options))
        .unwrap();
    assert_eq!(
        req.url,
        "https://example.com/auth/v1/signup?email_redirect_to=https%3A%2F%2Fapp.example.com%2F"
    );
    assert_eq!(body_of(&req), "{\"phone\":\"+15550100\",\"password\":\"pw\"}");
}

#[test]
fn anonymous_request_bodies() {
    let client = demo_client();
    let bare = client.login_anonymously_request(None).unwrap();
    assert_eq!(bare.url, "https://example.com/auth/v1/signup");
    assert_eq!(body_of(&bare), "{}");

    let options = LoginAnonymouslyOptions {
        data: Some(vec![("display_name".to_string(), "Guest".to_string())]),
    };
    let with_data = client.login_anonymously_request(Some(options)).unwrap();
    assert_eq!(
        body_of(&with_data),
        "{\"data\":{\"display_name\":\"Guest\"}}"
    );
}

#[test]
fn magic_link_request_is_shaped_exactly() {
    let client = demo_client();
    let req = client.magic_link_request("a@example.com").unwrap();
    assert_eq!(req.url, "https://example.com/auth/v1/magiclink");
    assert_eq!(body_of(&req), "{\"email\":\"a@example.com\"}");
}

#[test]
fn sms_otp_request_is_shaped_exactly() {
    let client = demo_client();
    let req = client.sms_otp_request("+15550100").unwrap();
    assert_eq!(req.url, "https://example.com/auth/v1/otp");
    assert_eq!(body_of(&req), "{\"phone\":\"+15550100\"}");
}

#[test]
fn email_otp_request_bodies() {
    let client = demo_client();
    let bare = client.email_otp_request("a@example.com", None).unwrap();
    assert_eq!(bare.url, "https://example.com/auth/v1/otp");
    assert_eq!(body_of(&bare), "{\"email\":\"a@example.com\"}");

    let options = LoginEmailOtpParams {
        create_user: Some(true),
    };
    let with_options = client
        .email_otp_request("a@example.com", Some(options))
        .unwrap();
    assert_eq!(
        body_of(&with_options),
        "{\"email\":\"a@example.com\",\"create_user\":true}"
    );
}

#[test]
fn get_user_request_carries_the_bearer_token() {
    let client = demo_client();
    let req = client.get_user_request("tok-123").unwrap();
    assert_eq!(req.method, HttpMethod::Get);
    assert_eq!(req.url, "https://example.com/auth/v1/user");
    assert_eq!(req.authorization.as_deref(), Some("Bearer tok-123"));
    assert!(!req.content_type_json);
    assert_eq!(req.body, None);
}

#[test]
fn invalid_bearer_token_is_rejected() {
    let client = demo_client();
    let r = client.get_user_request("to\u{7f}k");
    assert_eq!(r, Err(Error::InvalidHeaderValue));
}

#[test]
fn update_user_request_writes_every_field() {
    let client = demo_client();
    let update = UpdatedUser {
        email: Some("new@example.com".to_string()),
        password: None,
        data: Some(vec![("color".to_string(), "green".to_string())]),
    };
    let req = client.update_user_request(update, "tok").unwrap();
    assert_eq!(req.method, HttpMethod::Put);
    assert_eq!(req.url, "https://example.com/auth/v1/user");
    assert_eq!(req.authorization.as_deref(), Some("Bearer tok"));
    assert_eq!(
        body_of(&req),
        "{\"email\":\"new@example.com\",\"password\":null,\"data\":{\"color\":\"green\"}}"
    );
}

#[test]
fn id_token_request_names_the_provider() {
    let client = demo_client();
    let credentials = IdTokenCredentials {
        provider: Provider::Github,
        token: "id-token".to_string(),
    };
    let req = client.id_token_request(credentials).unwrap();
    assert_eq!(
        req.url,
        "https://example.com/auth/v1/token?grant_type=id_token"
    );
    assert_eq!(
        body_of(&req),
        "{\"provider\":\"github\",\"token\":\"id-token\"}"
    );
}

#[test]
fn invite_request_bodies() {
    let client = demo_client();
    let bare = client
        .invite_user_by_email_request("a@example.com", None, "admin-tok")
        .unwrap();
    assert_eq!(bare.url, "https://example.com/auth/v1/invite");
    assert_eq!(bare.authorization.as_deref(), Some("Bearer admin-tok"));
    assert_eq!(body_of(&bare), "{\"email\":\"a@example.com\"}");

    let with_data = client
        .invite_user_by_email_request(
            "a@example.com",
            Some(vec![("team".to_string(), "ops".to_string())]),
            "admin-tok",
        )
        .unwrap();
    assert_eq!(
        body_of(&with_data),
        "{\"email\":\"a@example.com\",\"data\":{\"team\":\"ops\"}}"
    );
}

#[test]
fn verify_otp_request_bodies() {
    let client = demo_client();
    let email = VerifyOtpParams::Email(VerifyEmailOtpParams {
        email: "a@example.com".to_string(),
        token: "123456".to_string(),
        otp_type: EmailOtpType::EmailChange,
    });
    let req = client.verify_otp_request(email).unwrap();
    assert_eq!(req.url, "https://example.com/auth/v1/verify");
    assert_eq!(
        body_of(&req),
        "{\"email\":\"a@example.com\",\"token\":\"123456\",\"type\":\"email_change\"}"
    );

    let mobile = VerifyOtpParams::Mobile(VerifyMobileOtpParams {
        phone: "+15550100".to_string(),
        token: "654321".to_string(),
        otp_type: MobileOtpType::Sms,
    });
    let req = client.verify_otp_request(mobile).unwrap();
    assert_eq!(
        body_of(&req),
        "{\"phone\":\"+15550100\",\"token\":\"654321\",\"type\":\"sms\"}"
    );
}

#[test]
fn health_and_settings_requests() {
    let client = demo_client();
    let health = client.get_health_request().unwrap();
    assert_eq!(health.method, HttpMethod::Get);
    assert_eq!(health.url, "https://example.com/auth/v1/health");
    assert_eq!(health.body, None);

    let settings = client.get_settings_request().unwrap();
    assert_eq!(settings.url, "https://example.com/auth/v1/settings");
    assert_eq!(settings.body, None);
}

#[test]
fn exchange_token_request_is_shaped_exactly() {
    let client = demo_client();
    let req = client.exchange_token_request("refresh-1").unwrap();
    assert_eq!(
        req.url,
        "https://example.com/auth/v1/token?grant_type=refresh_token"
    );
    assert_eq!(body_of(&req), "{\"refresh_token\":\"refresh-1\"}");
}

#[test]
fn refresh_session_request_is_the_same_construction() {
    let client = demo_client();
    let a = client.exchange_token_request("refresh-1").unwrap();
    let b = client.refresh_session_request("refresh-1").unwrap();
    assert_eq!(a, b);
}

#[test]
fn reset_password_request_with_redirect() {
    let client = demo_client();
    let options = ResetPasswordOptions {
        email_redirect_to: Some("https://app.example.com/reset done".to_string()),
    };
    let req = client
        .reset_password_request("a@example.com", Some(options))
        .unwrap();
    assert_eq!(
        req.url,
        "https://example.com/auth/v1/recover?redirect_to=https%3A%2F%2Fapp.example.com%2Freset+done"
    );
    assert_eq!(body_of(&req), "{\"email\":\"a@example.com\"}");
}

#[test]
fn resend_request_bodies() {
    let client = demo_client();
    let desktop = ResendParams::Desktop(DesktopResendParams {
        otp_type: EmailOtpType::Signup,
        email: "a@example.com".to_string(),
    });
    let req = client.resend_request(desktop).unwrap();
    assert_eq!(req.url, "https://example.com/auth/v1/resend");
    assert_eq!(
        body_of(&req),
        "{\"type\":\"signup\",\"email\":\"a@example.com\"}"
    );

    let mobile = ResendParams::Mobile(MobileResendParams {
        otp_type: MobileOtpType::PhoneChange,
        phone: "+15550100".to_string(),
    });
    let req = client.resend_request(mobile).unwrap();
    assert_eq!(
        body_of(&req),
        "{\"type\":\"phone_change\",\"phone\":\"+15550100\"}"
    );
}

#[test]
fn logout_request_bodies() {
    let client = demo_client();
    let bare = client.logout_request(None, "tok").unwrap();
    assert_eq!(bare.url, "https://example.com/auth/v1/logout");
    assert_eq!(bare.authorization.as_deref(), Some("Bearer tok"));
    assert_eq!(body_of(&bare), "null");

    let global = client.logout_request(Some(LogoutScope::Global), "tok").unwrap();
    assert_eq!(body_of(&global), "\"global\"");
    let local = client.logout_request(Some(LogoutScope::Local), "tok").unwrap();
    assert_eq!(body_of(&local), "\"local\"");
    let others = client.logout_request(Some(LogoutScope::Others), "tok").unwrap();
    assert_eq!(body_of(&others), "\"others\"");
}

#[test]
fn sso_request_bodies() {
    let client = demo_client();
    let domain = client
        .sso_request(LoginWithSSO {
            domain: Some("example.org".to_string()),
            provider_id: None,
        })
        .unwrap();
    assert_eq!(domain.url, "https://example.com/auth/v1/sso");
    assert_eq!(body_of(&domain), "{\"domain\":\"example.org\"}");

    let provider = client
        .sso_request(LoginWithSSO {
            domain: None,
            provider_id: Some("prov-9".to_string()),
        })
        .unwrap();
    assert_eq!(body_of(&provider), "{\"provider_id\":\"prov-9\"}");

    let neither = client
        .sso_request(LoginWithSSO {
            domain: None,
            provider_id: None,
        })
        .unwrap();
    assert_eq!(body_of(&neither), "{}");
}
