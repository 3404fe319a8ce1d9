//! The description of one HTTP request, and the checks that header values
//! must pass before a request may carry them.
//!
//! Each operation of the client is shaped into an [`HttpRequest`] value: the
//! method, the full URL, the headers as plain fields, and the body text. The
//! embedding application performs the exchange exactly as described and hands
//! the status code and body text back to the resolution functions.

use vstd::prelude::*;

use crate::json::{spec_json_member, spec_json_string, spec_json_string_object, spec_pairs};
use crate::models::{
    EmailOtpType, IdTokenCredentials, LoginWithSSO, LogoutScope, MobileOtpType, ResendParams,
    UpdatedUser, VerifyOtpParams,
};
use crate::oauth::spec_provider_name;
use crate::urlenc::spec_urlencoded;

verus! {

/// The HTTP method of a request.
#[derive(Clone, Copy, Debug, PartialEq, Eq, Structural)]
pub enum HttpMethod {
    Get,
    Post,
    Put,
}

/// One request, fully shaped: the embedding application sends it as it
/// stands. The API key always goes out as the `apikey` header; when
/// `authorization` is present it goes out as the `Authorization` header
/// verbatim; when `content_type_json` is set the request carries
/// `Content-Type: application/json`.
#[derive(Clone, Debug, PartialEq)]
pub struct HttpRequest {
    pub method: HttpMethod,
    pub url: String,
    pub api_key: String,
    pub authorization: Option<String>,
    pub content_type_json: bool,
    pub body: Option<String>,
}

/// Whether a character may stand in an HTTP header value: horizontal tab,
/// any visible ASCII character, and anything beyond ASCII; the ASCII control
/// characters and delete may not.
pub open spec fn spec_is_header_value_char(c: char) -> bool {
    c == '\t' || (32 <= c as u32 && c as u32 != 127)
}

/// Whether a text may stand in an HTTP header value.
pub open spec fn spec_is_header_value(s: Seq<char>) -> bool {
    forall|i: int| 0 <= i < s.len() ==> spec_is_header_value_char(#[trigger] s[i])
}

/// Check a text against [`spec_is_header_value`].
pub fn is_header_value(s: &str) -> (r: bool)
    ensures
        r == spec_is_header_value(s@),
{
    let n = s.unicode_len();
    let mut i: usize = 0;
    while i < n
        invariant
            n == s@.len(),
            i <= n,
            forall|j: int| 0 <= j < i ==> spec_is_header_value_char(#[trigger] s@[j]),
        decreases n - i,
    {
        let c = s.get_char(i);
        let v = c as u32;
        if !(v == 9 || (32 <= v && v != 127)) {
            return false;
        }
        i = i + 1;
    }
    true
}

/// An optional trailing query: the given prefix (a `?`, the key and `=`)
/// followed by the form-urlencoded target when one is given, and nothing
/// otherwise.
pub open spec fn spec_opt_query(prefix: Seq<char>, target: Option<String>) -> Seq<char> {
    match target {
        Some(r) => prefix + spec_urlencoded(r@),
        None => Seq::empty(),
    }
}

/// The `data` member of a body: the key `data` and an object of string
/// fields.
pub open spec fn spec_data_member(d: Seq<(Seq<char>, Seq<char>)>) -> Seq<char> {
    spec_json_string("data"@) + seq![':'] + spec_json_string_object(d)
}

/// The view of optional user metadata: each pair as its character sequences.
pub open spec fn spec_opt_data(data: Option<Vec<(String, String)>>) -> Option<
    Seq<(Seq<char>, Seq<char>)>,
> {
    match data {
        Some(d) => Some(spec_pairs(d@)),
        None => None,
    }
}

/// The body of a password sign-up: the identifying member (email or phone),
/// the password, and the metadata object when given.
pub open spec fn spec_password_signup_body(
    field: Seq<char>,
    id: Seq<char>,
    password: Seq<char>,
    data: Option<Seq<(Seq<char>, Seq<char>)>>,
) -> Seq<char> {
    seq!['{'] + spec_json_member(field, id) + seq![','] + spec_json_member("password"@, password)
        + (match data {
        Some(d) => seq![','] + spec_data_member(d),
        None => Seq::empty(),
    }) + seq!['}']
}

/// The body of an anonymous sign-in: empty, or the metadata object alone.
pub open spec fn spec_anonymous_body(data: Option<Seq<(Seq<char>, Seq<char>)>>) -> Seq<char> {
    seq!['{'] + (match data {
        Some(d) => spec_data_member(d),
        None => Seq::empty(),
    }) + seq!['}']
}

/// The body of an email OTP request: the email, and whether a user may be
/// created when that option is given.
pub open spec fn spec_email_otp_body(email: Seq<char>, create_user: Option<bool>) -> Seq<char> {
    seq!['{'] + spec_json_member("email"@, email) + (match create_user {
        Some(b) => seq![','] + spec_json_string("create_user"@) + seq![':'] + (if b {
            "true"@
        } else {
            "false"@
        }),
        None => Seq::empty(),
    }) + seq!['}']
}

/// The body of an invite: the email, and the metadata object when given.
pub open spec fn spec_invite_body(
    email: Seq<char>,
    data: Option<Seq<(Seq<char>, Seq<char>)>>,
) -> Seq<char> {
    seq!['{'] + spec_json_member("email"@, email) + (match data {
        Some(d) => seq![','] + spec_data_member(d),
        None => Seq::empty(),
    }) + seq!['}']
}

/// An optional string value on the wire: a JSON string literal, or `null`.
pub open spec fn spec_nullable_string(v: Option<String>) -> Seq<char> {
    match v {
        Some(s) => spec_json_string(s@),
        None => "null"@,
    }
}

/// The body of a user update: every field written, absent ones as `null`.
pub open spec fn spec_update_user_body(u: UpdatedUser) -> Seq<char> {
    seq!['{'] + spec_json_string("email"@) + seq![':'] + spec_nullable_string(u.email) + seq![',']
        + spec_json_string("password"@) + seq![':'] + spec_nullable_string(u.password) + seq![',']
        + spec_json_string("data"@) + seq![':'] + (match u.data {
        Some(d) => spec_json_string_object(spec_pairs(d@)),
        None => "null"@,
    }) + seq!['}']
}

/// The members of an ID-token login body: the provider's identifier and the
/// token.
pub open spec fn spec_id_token_pairs(c: IdTokenCredentials) -> Seq<(Seq<char>, Seq<char>)> {
    seq![("provider"@, spec_provider_name(c.provider)), ("token"@, c.token@)]
}

/// The members of an OTP verification body: where the code was sent, the
/// code, and the kind under `type`.
pub open spec fn spec_verify_otp_pairs(params: VerifyOtpParams) -> Seq<(Seq<char>, Seq<char>)> {
    match params {
        VerifyOtpParams::Email(e) => seq![
            ("email"@, e.email@),
            ("token"@, e.token@),
            ("type"@, spec_email_otp_type_name(e.otp_type)),
        ],
        VerifyOtpParams::Mobile(m) => seq![
            ("phone"@, m.phone@),
            ("token"@, m.token@),
            ("type"@, spec_mobile_otp_type_name(m.otp_type)),
        ],
    }
}

/// The members of a resend body: the kind under `type`, and where to send.
pub open spec fn spec_resend_pairs(params: ResendParams) -> Seq<(Seq<char>, Seq<char>)> {
    match params {
        ResendParams::Desktop(d) => seq![
            ("type"@, spec_email_otp_type_name(d.otp_type)),
            ("email"@, d.email@),
        ],
        ResendParams::Mobile(m) => seq![
            ("type"@, spec_mobile_otp_type_name(m.otp_type)),
            ("phone"@, m.phone@),
        ],
    }
}

/// The body of a logout: the scope's wire name as a JSON value, `null` when
/// no scope is given.
pub open spec fn spec_logout_body(scope: Option<LogoutScope>) -> Seq<char> {
    match scope {
        None => "null"@,
        Some(LogoutScope::Global) => "\"global\""@,
        Some(LogoutScope::Local) => "\"local\""@,
        Some(LogoutScope::Others) => "\"others\""@,
    }
}

/// The members of a single-sign-on body: the domain and the provider, each
/// written exactly when given.
pub open spec fn spec_sso_pairs(p: LoginWithSSO) -> Seq<(Seq<char>, Seq<char>)> {
    (match p.domain {
        Some(d) => seq![("domain"@, d@)],
        None => Seq::empty(),
    }) + (match p.provider_id {
        Some(i) => seq![("provider_id"@, i@)],
        None => Seq::empty(),
    })
}

/// The wire name of each email OTP kind: the value of the `type` member.
pub open spec fn spec_email_otp_type_name(t: EmailOtpType) -> Seq<char> {
    match t {
        EmailOtpType::Signup => "signup"@,
        EmailOtpType::Invite => "invite"@,
        EmailOtpType::Magiclink => "magiclink"@,
        EmailOtpType::Recovery => "recovery"@,
        EmailOtpType::EmailChange => "email_change"@,
        EmailOtpType::Email => "email"@,
    }
}

/// The wire name of an email OTP kind.
pub fn email_otp_type_name(t: EmailOtpType) -> (r: String)
    ensures
        r@ == spec_email_otp_type_name(t),
{
    match t {
        EmailOtpType::Signup => "signup".to_owned(),
        EmailOtpType::Invite => "invite".to_owned(),
        EmailOtpType::Magiclink => "magiclink".to_owned(),
        EmailOtpType::Recovery => "recovery".to_owned(),
        EmailOtpType::EmailChange => "email_change".to_owned(),
        EmailOtpType::Email => "email".to_owned(),
    }
}

/// The wire name of each phone OTP kind: the value of the `type` member.
pub open spec fn spec_mobile_otp_type_name(t: MobileOtpType) -> Seq<char> {
    match t {
        MobileOtpType::Sms => "sms"@,
        MobileOtpType::PhoneChange => "phone_change"@,
    }
}

/// The wire name of a phone OTP kind.
pub fn mobile_otp_type_name(t: MobileOtpType) -> (r: String)
    ensures
        r@ == spec_mobile_otp_type_name(t),
{
    match t {
        MobileOtpType::Sms => "sms".to_owned(),
        MobileOtpType::PhoneChange => "phone_change".to_owned(),
    }
}

} // verus!
