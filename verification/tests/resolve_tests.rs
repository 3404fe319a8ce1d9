use supabase_auth::error::Error;
use supabase_auth::models::{EmailSignUpConfirmation, EmailSignUpResult, OTPResponse, Session, User};
use supabase_auth::resolve::{
    resolve_email_sign_up, resolve_json, resolve_no_content, resolve_redirect,
};

fn demo_user() -> User {
    User {
        id: "user-1".to_string(),
        email: "a@example.com".to_string(),
        phone: "".to_string(),
        created_at: "2024-01-01T00:00:00Z".to_string(),
        updated_at: "2024-01-01T00:00:00Z".to_string(),
        email_confirmed_at: None,
        phone_confirmed_at: None,
    }
}

fn demo_session() -> Session {
    Session {
        access_token: "access".to_string(),
        token_type: "bearer".to_string(),
        expires_in: 3600,
        expires_at: 1700003600,
        refresh_token: "refresh".to_string(),
        user: demo_user(),
    }
}

#[test]
fn success_shape_wins_with_success_status() {
    let r = resolve_json(200, Some(demo_session()), "{}".to_string());
    assert_eq!(r, Ok(demo_session()));
}

#[test]
fn success_shape_wins_regardless_of_status() {
    let r = resolve_json(500, Some(demo_session()), "whatever".to_string());
    assert_eq!(r, Ok(demo_session()));
}

#[test]
fn structured_error_body_gives_status_and_message() {
    let r = resolve_json::<Session>(400, None, "{\"message\":\"X\"}".to_string());
    assert_eq!(
        r,
        Err(Error::AuthError {
            status: 400,
            message: "X".to_string(),
        })
    );
}

#[test]
fn structured_error_body_with_extra_members() {
    let body = "{\"code\":429,\"message\":\"over quota\",\"hint\":null}".to_string();
    let r = resolve_json::<Session>(429, None, body);
    assert_eq!(
        r,
        Err(Error::AuthError {
            status: 429,
            message: "over quota".to_string(),
        })
    );
}

#[test]
fn non_json_error_body_is_passed_verbatim() {
    let r = resolve_json::<Session>(503, None, "upstream unavailable".to_string());
    assert_eq!(
        r,
        Err(Error::AuthError {
            status: 503,
            message: "upstream unavailable".to_string(),
        })
    );
}

#[test]
fn json_body_without_string_message_is_passed_verbatim() {
    let r = resolve_json::<Session>(500, None, "{\"message\":5}".to_string());
    assert_eq!(
        r,
        Err(Error::AuthError {
            status: 500,
            message: "{\"message\":5}".to_string(),
        })
    );
}

#[test]
fn no_content_success_on_2xx() {
    assert_eq!(resolve_no_content(204, "".to_string()), Ok(()));
    assert_eq!(resolve_no_content(200, "ignored".to_string()), Ok(()));
}

#[test]
fn no_content_structured_error() {
    let r = resolve_no_content(422, "{\"message\":\"bad email\"}".to_string());
    assert_eq!(
        r,
        Err(Error::AuthError {
            status: 422,
            message: "bad email".to_string(),
        })
    );
}

#[test]
fn no_content_raw_error() {
    let r = resolve_no_content(500, "<html>oops</html>".to_string());
    assert_eq!(
        r,
        Err(Error::AuthError {
            status: 500,
            message: "<html>oops</html>".to_string(),
        })
    );
}

#[test]
fn empty_error_body_is_passed_verbatim() {
    let r = resolve_no_content(400, "".to_string());
    assert_eq!(
        r,
        Err(Error::AuthError {
            status: 400,
            message: "".to_string(),
        })
    );
}

#[test]
fn redirect_success_outside_error_ranges() {
    let r = resolve_redirect(303, "https://idp.example.com/login".to_string(), "".to_string());
    assert_eq!(r, Ok("https://idp.example.com/login".to_string()));
}

#[test]
fn redirect_structured_error() {
    let r = resolve_redirect(
        404,
        "https://example.com/auth/v1/sso".to_string(),
        "{\"message\":\"no provider\"}".to_string(),
    );
    assert_eq!(
        r,
        Err(Error::AuthError {
            status: 404,
            message: "no provider".to_string(),
        })
    );
}

#[test]
fn redirect_raw_error() {
    let r = resolve_redirect(500, "https://x".to_string(), "boom".to_string());
    assert_eq!(
        r,
        Err(Error::AuthError {
            status: 500,
            message: "boom".to_string(),
        })
    );
}

#[test]
fn otp_success_shape_wins_regardless_of_status() {
    let acknowledgement = OTPResponse {
        message_id: Some("m-1".to_string()),
    };
    let r = resolve_json(429, Some(acknowledgement.clone()), "ignored".to_string());
    assert_eq!(r, Ok(acknowledgement));
}

#[test]
fn otp_error_body_follows_the_protocol() {
    let r = resolve_json::<OTPResponse>(429, None, "{\"message\":\"slow down\"}".to_string());
    assert_eq!(
        r,
        Err(Error::AuthError {
            status: 429,
            message: "slow down".to_string(),
        })
    );
}

#[test]
fn email_sign_up_session_shape_wins() {
    let r = resolve_email_sign_up(500, Some(demo_session()), None, "".to_string());
    assert_eq!(r, Ok(EmailSignUpResult::SessionResult(demo_session())));
}

#[test]
fn email_sign_up_confirmation_shape() {
    let confirmation = EmailSignUpConfirmation {
        id: "user-2".to_string(),
        email: "b@example.com".to_string(),
        confirmation_sent_at: Some("2024-01-01T00:00:00Z".to_string()),
    };
    let r = resolve_email_sign_up(200, None, Some(confirmation.clone()), "".to_string());
    assert_eq!(r, Ok(EmailSignUpResult::ConfirmationResult(confirmation)));
}

#[test]
fn email_sign_up_neither_shape_fails() {
    let r = resolve_email_sign_up(400, None, None, "{\"message\":\"taken\"}".to_string());
    assert_eq!(
        r,
        Err(Error::AuthError {
            status: 400,
            message: "taken".to_string(),
        })
    );
}
