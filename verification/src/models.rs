//! The data model of the client: sessions, users, server reports, and the
//! typed inputs of each operation.
//!
//! These are plain data carriers. The contracts of the operations speak of
//! their fields directly.

use vstd::prelude::*;

verus! {

/// A server-side user profile record. The client does not interpret it beyond
/// typed fields.
#[derive(Debug, PartialEq)]
pub struct User {
    pub id: String,
    pub email: String,
    pub phone: String,
    pub created_at: String,
    pub updated_at: String,
    pub email_confirmed_at: Option<String>,
    pub phone_confirmed_at: Option<String>,
}

/// Paired access/refresh tokens plus the associated user profile,
/// representing an authenticated user context.
#[derive(Debug, PartialEq)]
pub struct Session {
    pub access_token: String,
    pub token_type: String,
    pub expires_in: u64,
    pub expires_at: u64,
    pub refresh_token: String,
    pub user: User,
}

/// The acknowledgement returned by an email sign-up that requires the address
/// to be confirmed before a session is issued.
#[derive(Clone, Debug, PartialEq)]
pub struct EmailSignUpConfirmation {
    pub id: String,
    pub email: String,
    pub confirmation_sent_at: Option<String>,
}

/// An email sign-up either opens a session at once or returns a pending
/// confirmation.
#[derive(Debug, PartialEq)]
pub enum EmailSignUpResult {
    SessionResult(Session),
    ConfirmationResult(EmailSignUpConfirmation),
}

/// The acknowledgement of a one-time-password delivery.
#[derive(Clone, Debug, PartialEq)]
pub struct OTPResponse {
    pub message_id: Option<String>,
}

/// The health report of the authentication server.
#[derive(Clone, Debug, PartialEq)]
pub struct AuthServerHealth {
    pub version: String,
    pub name: String,
    pub description: String,
}

/// The public settings of the authentication server.
#[derive(Clone, Debug, PartialEq)]
pub struct AuthServerSettings {
    pub disable_signup: bool,
    pub mailer_autoconfirm: bool,
    pub phone_autoconfirm: bool,
    pub sms_provider: String,
}

/// How far a logout reaches: every session of the user, only the current one,
/// or every other one.
#[derive(Clone, Copy, Debug, PartialEq, Eq, Structural)]
pub enum LogoutScope {
    Global,
    Local,
    Others,
}

/// Options accepted by the password sign-up operations.
#[derive(Clone, Debug, PartialEq)]
pub struct SignUpWithPasswordOptions {
    /// Where the confirmation email should send the user afterwards.
    pub email_redirect_to: Option<String>,
    /// Initial user metadata, as string keys and string values.
    pub data: Option<Vec<(String, String)>>,
}

/// Options accepted by the anonymous sign-in operation.
#[derive(Clone, Debug, PartialEq)]
pub struct LoginAnonymouslyOptions {
    /// Initial user metadata, as string keys and string values.
    pub data: Option<Vec<(String, String)>>,
}

/// Options accepted when requesting a login code by email.
#[derive(Clone, Debug, PartialEq)]
pub struct LoginEmailOtpParams {
    /// Whether a new user may be created by this request.
    pub create_user: Option<bool>,
}

/// An OpenID Connect ID token together with the provider that issued it.
#[derive(Clone, Debug, PartialEq)]
pub struct IdTokenCredentials {
    pub provider: crate::oauth::Provider,
    pub token: String,
}

/// The fields of a user that an update may change; absent fields are left as
/// they are by the server.
#[derive(Clone, Debug, PartialEq)]
pub struct UpdatedUser {
    pub email: Option<String>,
    pub password: Option<String>,
    pub data: Option<Vec<(String, String)>>,
}

/// The kind of one-time password delivered by email.
#[derive(Clone, Copy, Debug, PartialEq, Eq, Structural)]
pub enum EmailOtpType {
    Signup,
    Invite,
    Magiclink,
    Recovery,
    EmailChange,
    Email,
}

/// The kind of one-time password delivered to a phone.
#[derive(Clone, Copy, Debug, PartialEq, Eq, Structural)]
pub enum MobileOtpType {
    Sms,
    PhoneChange,
}

/// Verification of a code that was sent by email.
#[derive(Clone, Debug, PartialEq)]
pub struct VerifyEmailOtpParams {
    pub email: String,
    pub token: String,
    pub otp_type: EmailOtpType,
}

/// Verification of a code that was sent to a phone.
#[derive(Clone, Debug, PartialEq)]
pub struct VerifyMobileOtpParams {
    pub phone: String,
    pub token: String,
    pub otp_type: MobileOtpType,
}

/// The input of the OTP verification operation.
#[derive(Clone, Debug, PartialEq)]
pub enum VerifyOtpParams {
    Email(VerifyEmailOtpParams),
    Mobile(VerifyMobileOtpParams),
}

/// A resend request for a code or confirmation that was delivered by email.
#[derive(Clone, Debug, PartialEq)]
pub struct DesktopResendParams {
    pub otp_type: EmailOtpType,
    pub email: String,
}

/// A resend request for a code that was delivered to a phone.
#[derive(Clone, Debug, PartialEq)]
pub struct MobileResendParams {
    pub otp_type: MobileOtpType,
    pub phone: String,
}

/// The input of the resend operation: which confirmation or code to send
/// again, and where.
#[derive(Clone, Debug, PartialEq)]
pub enum ResendParams {
    Desktop(DesktopResendParams),
    Mobile(MobileResendParams),
}

/// Options accepted by the password-reset request.
#[derive(Clone, Debug, PartialEq)]
pub struct ResetPasswordOptions {
    /// Where the recovery email should send the user afterwards.
    pub email_redirect_to: Option<String>,
}

/// The input of the single-sign-on operation: the domain or the provider
/// registered for it.
#[derive(Clone, Debug, PartialEq)]
pub struct LoginWithSSO {
    pub domain: Option<String>,
    pub provider_id: Option<String>,
}

impl Clone for User {
    /// A clone keeps every field.
    fn clone(&self) -> (res: User)
        ensures
            res == *self,
    {
        let res = User {
            id: self.id.clone(),
            email: self.email.clone(),
            phone: self.phone.clone(),
            created_at: self.created_at.clone(),
            updated_at: self.updated_at.clone(),
            email_confirmed_at: self.email_confirmed_at.clone(),
            phone_confirmed_at: self.phone_confirmed_at.clone(),
        };
        proof {
            assert(res.email_confirmed_at == self.email_confirmed_at);
            assert(res.phone_confirmed_at == self.phone_confirmed_at);
        }
        res
    }
}

impl Clone for Session {
    /// A clone keeps every field.
    fn clone(&self) -> (res: Session)
        ensures
            res == *self,
    {
        Session {
            access_token: self.access_token.clone(),
            token_type: self.token_type.clone(),
            expires_in: self.expires_in,
            expires_at: self.expires_at,
            refresh_token: self.refresh_token.clone(),
            user: self.user.clone(),
        }
    }
}

} // verus!
