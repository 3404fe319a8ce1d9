//! The authentication client: connection configuration set once at
//! construction, and the single cached session.
//!
//! The cached session, if present, always corresponds to the most recent
//! successful authentication or refresh call; it is overwritten wholesale on
//! every successful session-producing operation and cleared wholesale on a
//! successful logout. It is never partially written, and read-only operations
//! do not touch it.

use vstd::prelude::*;
use vstd::string::StringExecFns;

use crate::error::Error;
use crate::json::{
    push_json_member, push_json_string, push_json_string_object, spec_json_string_object,
    spec_pairs,
};
use crate::models::{
    IdTokenCredentials, LoginAnonymouslyOptions, LoginEmailOtpParams, LoginWithSSO, LogoutScope,
    ResendParams, ResetPasswordOptions, Session, SignUpWithPasswordOptions, UpdatedUser,
    VerifyOtpParams,
};
use crate::oauth;
use crate::oauth::{spec_authorize_url, spec_url_ok, LoginWithOAuthOptions, OAuthResponse, Provider};
use crate::request::{
    email_otp_type_name, is_header_value, mobile_otp_type_name, spec_anonymous_body,
    spec_email_otp_body, spec_id_token_pairs, spec_invite_body, spec_is_header_value,
    spec_logout_body, spec_opt_data, spec_opt_query, spec_password_signup_body, spec_resend_pairs,
    spec_sso_pairs, spec_update_user_body, spec_verify_otp_pairs, HttpMethod, HttpRequest,
};
use crate::urlenc::push_urlencoded;
use crate::resolve;
use crate::resolve::{spec_failure_message, spec_is_success_status};

verus! {

/// A client of the remote authentication service. Holds the connection
/// configuration — base URL, API key, signing secret — immutable after
/// construction, and at most one cached session.
#[derive(Debug)]
pub struct AuthClient {
    project_url: String,
    api_key: String,
    jwt_secret: String,
    session: Option<Session>,
}

impl AuthClient {
    /// The cached session, if any.
    pub closed spec fn spec_session(&self) -> Option<Session> {
        self.session
    }

    /// The base URL of the project, as configured.
    pub closed spec fn spec_project_url(&self) -> Seq<char> {
        self.project_url@
    }

    /// The API key, as configured.
    pub closed spec fn spec_api_key(&self) -> Seq<char> {
        self.api_key@
    }

    /// The signing secret, as configured.
    pub closed spec fn spec_jwt_secret(&self) -> Seq<char> {
        self.jwt_secret@
    }

    /// Create a new client from its three configuration values. A fresh
    /// client has no session.
    pub fn new(project_url: String, api_key: String, jwt_secret: String) -> (r: AuthClient)
        ensures
            r.spec_project_url() == project_url@,
            r.spec_api_key() == api_key@,
            r.spec_jwt_secret() == jwt_secret@,
            r.spec_session() is None,
    {
        AuthClient { project_url, api_key, jwt_secret, session: None }
    }

    /// Create a client from the values of the three required environment
    /// variables, each absent when the variable was unset. Fails distinctly
    /// on the first absent one, naming it; succeeds exactly when all three
    /// are present.
    pub fn new_from_env_values(
        project_url: Option<String>,
        api_key: Option<String>,
        jwt_secret: Option<String>,
    ) -> (r: Result<AuthClient, Error>)
        ensures
            project_url is None ==> (r matches Err(Error::MissingEnvVariable { variable })
                && variable@ == "SUPABASE_URL"@),
            project_url is Some && api_key is None ==> (r matches Err(
                Error::MissingEnvVariable { variable },
            ) && variable@ == "SUPABASE_API_KEY"@),
            project_url is Some && api_key is Some && jwt_secret is None ==> (r matches Err(
                Error::MissingEnvVariable { variable },
            ) && variable@ == "SUPABASE_JWT_SECRET"@),
            project_url matches Some(u) ==> (api_key matches Some(k) ==> (jwt_secret matches Some(
                s,
            ) ==> (r matches Ok(c) && c.spec_project_url() == u@ && c.spec_api_key() == k@
                && c.spec_jwt_secret() == s@ && c.spec_session() is None))),
    {
        let project_url = match project_url {
            Some(u) => u,
            None => {
                return Err(
                    Error::MissingEnvVariable { variable: "SUPABASE_URL".to_owned() },
                );
            },
        };
        let api_key = match api_key {
            Some(k) => k,
            None => {
                return Err(
                    Error::MissingEnvVariable { variable: "SUPABASE_API_KEY".to_owned() },
                );
            },
        };
        let jwt_secret = match jwt_secret {
            Some(s) => s,
            None => {
                return Err(
                    Error::MissingEnvVariable { variable: "SUPABASE_JWT_SECRET".to_owned() },
                );
            },
        };
        Ok(AuthClient { project_url, api_key, jwt_secret, session: None })
    }

    /// A copy of the cached session, or none when no session is cached.
    pub fn session(&self) -> (r: Option<Session>)
        ensures
            r == self.spec_session(),
    {
        match &self.session {
            Some(s) => Some(s.clone()),
            None => None,
        }
    }

    /// Whether the client holds a session.
    pub fn is_authenticated(&self) -> (r: bool)
        ensures
            r == self.spec_session() is Some,
    {
        self.session.is_some()
    }

    /// The project URL the client was constructed with.
    pub fn project_url(&self) -> (r: &str)
        ensures
            r@ == self.spec_project_url(),
    {
        self.project_url.as_str()
    }

    /// The API key the client was constructed with.
    pub fn api_key(&self) -> (r: &str)
        ensures
            r@ == self.spec_api_key(),
    {
        self.api_key.as_str()
    }

    /// The signing secret the client was constructed with.
    pub fn jwt_secret(&self) -> (r: &str)
        ensures
            r@ == self.spec_jwt_secret(),
    {
        self.jwt_secret.as_str()
    }

    /// Whether an operation needing no bearer token can shape its request:
    /// the API key must be able to stand in a header.
    pub open spec fn spec_can_request(&self) -> bool {
        spec_is_header_value(self.spec_api_key())
    }

    /// The request fields common to every operation: the method, the URL
    /// under the project's base, the API key, and whether a JSON body is
    /// announced.
    pub open spec fn spec_api_request(
        &self,
        req: HttpRequest,
        method: HttpMethod,
        content_type_json: bool,
    ) -> bool {
        &&& req.method == method
        &&& req.api_key@ == self.spec_api_key()
        &&& req.content_type_json == content_type_json
    }

    /// Assemble a request from its parts, with the URL already complete.
    fn assemble_at(
        &self,
        method: HttpMethod,
        url: String,
        content_type_json: bool,
        authorization: Option<String>,
        body: Option<String>,
    ) -> (req: HttpRequest)
        ensures
            self.spec_api_request(req, method, content_type_json),
            req.url == url,
            req.authorization == authorization,
            req.body == body,
    {
        HttpRequest {
            method,
            url,
            api_key: self.api_key.clone(),
            authorization,
            content_type_json,
            body,
        }
    }

    /// Assemble a request from its parts; the URL is the given path under
    /// the project's base URL.
    fn assemble(
        &self,
        method: HttpMethod,
        path: &str,
        content_type_json: bool,
        authorization: Option<String>,
        body: Option<String>,
    ) -> (req: HttpRequest)
        ensures
            self.spec_api_request(req, method, content_type_json),
            req.url@ == self.spec_project_url() + path@,
            req.authorization == authorization,
            req.body == body,
    {
        let mut url = self.project_url.clone();
        url.append(path);
        self.assemble_at(method, url, content_type_json, authorization, body)
    }

    /// Shape the email-and-password login request: a `POST` of the email and
    /// password to the password-grant token endpoint. Fails exactly when the
    /// API key cannot stand in a header.
    pub fn login_with_email_request(&self, email: &str, password: &str) -> (r: Result<
        HttpRequest,
        Error,
    >)
        ensures
            r is Ok <==> self.spec_can_request(),
            r matches Ok(req) ==> ({
                &&& self.spec_api_request(req, HttpMethod::Post, true)
                &&& req.url@ == self.spec_project_url() + "/auth/v1/token?grant_type=password"@
                &&& req.authorization is None
                &&& req.body matches Some(b) && b@ == spec_json_string_object(
                    seq![("email"@, email@), ("password"@, password@)],
                )
            }),
            r is Err ==> r == Err::<HttpRequest, Error>(Error::InvalidHeaderValue),
    {
        if !is_header_value(self.api_key.as_str()) {
            return Err(Error::InvalidHeaderValue);
        }
        let mut fields: Vec<(String, String)> = Vec::new();
        fields.push(("email".to_owned(), email.to_owned()));
        fields.push(("password".to_owned(), password.to_owned()));
        let mut body = String::new();
        push_json_string_object(&mut body, &fields);
        proof {
            assert(spec_pairs(fields@) =~~= seq![("email"@, email@), ("password"@, password@)]);
        }
        Ok(
            self.assemble(
                HttpMethod::Post,
                "/auth/v1/token?grant_type=password",
                true,
                None,
                Some(body),
            ),
        )
    }

    /// Shape the phone-and-password login request: a `POST` of the phone
    /// number and password to the password-grant token endpoint. Fails
    /// exactly when the API key cannot stand in a header.
    pub fn login_with_phone_request(&self, phone: &str, password: &str) -> (r: Result<
        HttpRequest,
        Error,
    >)
        ensures
            r is Ok <==> self.spec_can_request(),
            r matches Ok(req) ==> ({
                &&& self.spec_api_request(req, HttpMethod::Post, true)
                &&& req.url@ == self.spec_project_url() + "/auth/v1/token?grant_type=password"@
                &&& req.authorization is None
                &&& req.body matches Some(b) && b@ == spec_json_string_object(
                    seq![("phone"@, phone@), ("password"@, password@)],
                )
            }),
            r is Err ==> r == Err::<HttpRequest, Error>(Error::InvalidHeaderValue),
    {
        if !is_header_value(self.api_key.as_str()) {
            return Err(Error::InvalidHeaderValue);
        }
        let mut fields: Vec<(String, String)> = Vec::new();
        fields.push(("phone".to_owned(), phone.to_owned()));
        fields.push(("password".to_owned(), password.to_owned()));
        let mut body = String::new();
        push_json_string_object(&mut body, &fields);
        proof {
            assert(spec_pairs(fields@) =~~= seq![("phone"@, phone@), ("password"@, password@)]);
        }
        Ok(
            self.assemble(
                HttpMethod::Post,
                "/auth/v1/token?grant_type=password",
                true,
                None,
                Some(body),
            ),
        )
    }

    /// Shape the email-and-password sign-up request: a `POST` of the email,
    /// password and optional metadata to the signup endpoint, with the
    /// redirect target, when given, as the `redirect_to` query parameter.
    /// Fails exactly when the API key cannot stand in a header.
    pub fn sign_up_with_email_request(
        &self,
        email: &str,
        password: &str,
        options: Option<SignUpWithPasswordOptions>,
    ) -> (r: Result<HttpRequest, Error>)
        ensures
            r is Ok <==> self.spec_can_request(),
            r matches Ok(req) ==> ({
                let redirect = match options {
                    Some(o) => o.email_redirect_to,
                    None => None,
                };
                let data = match options {
                    Some(o) => spec_opt_data(o.data),
                    None => None,
                };
                &&& self.spec_api_request(req, HttpMethod::Post, true)
                &&& req.url@ == self.spec_project_url() + "/auth/v1/signup"@ + spec_opt_query(
                    "?redirect_to="@,
                    redirect,
                )
                &&& req.authorization is None
                &&& req.body matches Some(b) && b@ == spec_password_signup_body(
                    "email"@,
                    email@,
                    password@,
                    data,
                )
            }),
            r is Err ==> r == Err::<HttpRequest, Error>(Error::InvalidHeaderValue),
    {
        if !is_header_value(self.api_key.as_str()) {
            return Err(Error::InvalidHeaderValue);
        }
        let mut body = String::new();
        body.push('{');
        push_json_member(&mut body, "email", email);
        body.push(',');
        push_json_member(&mut body, "password", password);
        match &options {
            Some(o) => {
                match &o.data {
                    Some(d) => {
                        body.push(',');
                        push_json_string(&mut body, "data");
                        body.push(':');
                        push_json_string_object(&mut body, d);
                    },
                    None => {},
                }
            },
            None => {},
        }
        body.push('}');
        let mut url = self.project_url.clone();
        url.append("/auth/v1/signup");
        match &options {
            Some(o) => {
                match &o.email_redirect_to {
                    Some(redirect) => {
                        url.append("?redirect_to=");
                        push_urlencoded(&mut url, redirect.as_str());
                    },
                    None => {},
                }
            },
            None => {},
        }
        Ok(self.assemble_at(HttpMethod::Post, url, true, None, Some(body)))
    }

    /// Shape the phone-and-password sign-up request: a `POST` of the phone
    /// number, password and optional metadata to the signup endpoint, with
    /// the redirect target, when given, as the `email_redirect_to` query
    /// parameter. Fails exactly when the API key cannot stand in a header.
    pub fn sign_up_with_phone_request(
        &self,
        phone: &str,
        password: &str,
        options: Option<SignUpWithPasswordOptions>,
    ) -> (r: Result<HttpRequest, Error>)
        ensures
            r is Ok <==> self.spec_can_request(),
            r matches Ok(req) ==> ({
                let redirect = match options {
                    Some(o) => o.email_redirect_to,
                    None => None,
                };
                let data = match options {
                    Some(o) => spec_opt_data(o.data),
                    None => None,
                };
                &&& self.spec_api_request(req, HttpMethod::Post, true)
                &&& req.url@ == self.spec_project_url() + "/auth/v1/signup"@ + spec_opt_query(
                    "?email_redirect_to="@,
                    redirect,
                )
                &&& req.authorization is None
                &&& req.body matches Some(b) && b@ == spec_password_signup_body(
                    "phone"@,
                    phone@,
                    password@,
                    data,
                )
            }),
            r is Err ==> r == Err::<HttpRequest, Error>(Error::InvalidHeaderValue),
    {
        if !is_header_value(self.api_key.as_str()) {
            return Err(Error::InvalidHeaderValue);
        }
        let mut body = String::new();
        body.push('{');
        push_json_member(&mut body, "phone", phone);
        body.push(',');
        push_json_member(&mut body, "password", password);
        match &options {
            Some(o) => {
                match &o.data {
                    Some(d) => {
                        body.push(',');
                        push_json_string(&mut body, "data");
                        body.push(':');
                        push_json_string_object(&mut body, d);
                    },
                    None => {},
                }
            },
            None => {},
        }
        body.push('}');
        let mut url = self.project_url.clone();
        url.append("/auth/v1/signup");
        match &options {
            Some(o) => {
                match &o.email_redirect_to {
                    Some(redirect) => {
                        url.append("?email_redirect_to=");
                        push_urlencoded(&mut url, redirect.as_str());
                    },
                    None => {},
                }
            },
            None => {},
        }
        Ok(self.assemble_at(HttpMethod::Post, url, true, None, Some(body)))
    }

    /// Shape the anonymous sign-in request: a `POST` to the signup endpoint
    /// with optional metadata and nothing else. Fails exactly when the API
    /// key cannot stand in a header.
    pub fn login_anonymously_request(&self, options: Option<LoginAnonymouslyOptions>) -> (r: Result<
        HttpRequest,
        Error,
    >)
        ensures
            r is Ok <==> self.spec_can_request(),
            r matches Ok(req) ==> ({
                let data = match options {
                    Some(o) => spec_opt_data(o.data),
                    None => None,
                };
                &&& self.spec_api_request(req, HttpMethod::Post, true)
                &&& req.url@ == self.spec_project_url() + "/auth/v1/signup"@
                &&& req.authorization is None
                &&& req.body matches Some(b) && b@ == spec_anonymous_body(data)
            }),
            r is Err ==> r == Err::<HttpRequest, Error>(Error::InvalidHeaderValue),
    {
        if !is_header_value(self.api_key.as_str()) {
            return Err(Error::InvalidHeaderValue);
        }
        let mut body = String::new();
        body.push('{');
        match &options {
            Some(o) => {
                match &o.data {
                    Some(d) => {
                        push_json_string(&mut body, "data");
                        body.push(':');
                        push_json_string_object(&mut body, d);
                    },
                    None => {},
                }
            },
            None => {},
        }
        body.push('}');
        Ok(self.assemble(HttpMethod::Post, "/auth/v1/signup", true, None, Some(body)))
    }

    /// Shape the magic-link request: a `POST` of the email to the magiclink
    /// endpoint. Fails exactly when the API key cannot stand in a header.
    pub fn magic_link_request(&self, email: &str) -> (r: Result<HttpRequest, Error>)
        ensures
            r is Ok <==> self.spec_can_request(),
            r matches Ok(req) ==> ({
                &&& self.spec_api_request(req, HttpMethod::Post, true)
                &&& req.url@ == self.spec_project_url() + "/auth/v1/magiclink"@
                &&& req.authorization is None
                &&& req.body matches Some(b) && b@ == spec_json_string_object(
                    seq![("email"@, email@)],
                )
            }),
            r is Err ==> r == Err::<HttpRequest, Error>(Error::InvalidHeaderValue),
    {
        if !is_header_value(self.api_key.as_str()) {
            return Err(Error::InvalidHeaderValue);
        }
        let mut fields: Vec<(String, String)> = Vec::new();
        fields.push(("email".to_owned(), email.to_owned()));
        let mut body = String::new();
        push_json_string_object(&mut body, &fields);
        proof {
            assert(spec_pairs(fields@) =~~= seq![("email"@, email@)]);
        }
        Ok(self.assemble(HttpMethod::Post, "/auth/v1/magiclink", true, None, Some(body)))
    }

    /// Shape the SMS OTP request: a `POST` of the phone number to the otp
    /// endpoint. Fails exactly when the API key cannot stand in a header.
    pub fn sms_otp_request(&self, phone: &str) -> (r: Result<HttpRequest, Error>)
        ensures
            r is Ok <==> self.spec_can_request(),
            r matches Ok(req) ==> ({
                &&& self.spec_api_request(req, HttpMethod::Post, true)
                &&& req.url@ == self.spec_project_url() + "/auth/v1/otp"@
                &&& req.authorization is None
                &&& req.body matches Some(b) && b@ == spec_json_string_object(
                    seq![("phone"@, phone@)],
                )
            }),
            r is Err ==> r == Err::<HttpRequest, Error>(Error::InvalidHeaderValue),
    {
        if !is_header_value(self.api_key.as_str()) {
            return Err(Error::InvalidHeaderValue);
        }
        let mut fields: Vec<(String, String)> = Vec::new();
        fields.push(("phone".to_owned(), phone.to_owned()));
        let mut body = String::new();
        push_json_string_object(&mut body, &fields);
        proof {
            assert(spec_pairs(fields@) =~~= seq![("phone"@, phone@)]);
        }
        Ok(self.assemble(HttpMethod::Post, "/auth/v1/otp", true, None, Some(body)))
    }

    /// Shape the email OTP request: a `POST` of the email, and of whether a
    /// user may be created when that option is given, to the otp endpoint.
    /// Fails exactly when the API key cannot stand in a header.
    pub fn email_otp_request(&self, email: &str, options: Option<LoginEmailOtpParams>) -> (r:
        Result<HttpRequest, Error>)
        ensures
            r is Ok <==> self.spec_can_request(),
            r matches Ok(req) ==> ({
                let create_user = match options {
                    Some(o) => o.create_user,
                    None => None,
                };
                &&& self.spec_api_request(req, HttpMethod::Post, true)
                &&& req.url@ == self.spec_project_url() + "/auth/v1/otp"@
                &&& req.authorization is None
                &&& req.body matches Some(b) && b@ == spec_email_otp_body(email@, create_user)
            }),
            r is Err ==> r == Err::<HttpRequest, Error>(Error::InvalidHeaderValue),
    {
        if !is_header_value(self.api_key.as_str()) {
            return Err(Error::InvalidHeaderValue);
        }
        let mut body = String::new();
        body.push('{');
        push_json_member(&mut body, "email", email);
        match &options {
            Some(o) => {
                match o.create_user {
                    Some(create) => {
                        body.push(',');
                        push_json_string(&mut body, "create_user");
                        body.push(':');
                        if create {
                            body.append("true");
                        } else {
                            body.append("false");
                        }
                    },
                    None => {},
                }
            },
            None => {},
        }
        body.push('}');
        Ok(self.assemble(HttpMethod::Post, "/auth/v1/otp", true, None, Some(body)))
    }

    /// Whether an operation carrying a bearer token can shape its request:
    /// the API key and the token must both be able to stand in a header.
    pub open spec fn spec_can_bearer_request(&self, token: Seq<char>) -> bool {
        spec_is_header_value(self.spec_api_key()) && spec_is_header_value(token)
    }

    /// The `Authorization` header value for a bearer token.
    fn bearer_header(token: &str) -> (r: String)
        ensures
            r@ == "Bearer "@ + token@,
    {
        let mut r = "Bearer ".to_owned();
        r.append(token);
        r
    }

    /// Shape the user fetch: a `GET` of the user endpoint as the bearer of
    /// the given token. Fails exactly when the API key or the token cannot
    /// stand in a header.
    pub fn get_user_request(&self, bearer_token: &str) -> (r: Result<HttpRequest, Error>)
        ensures
            r is Ok <==> self.spec_can_bearer_request(bearer_token@),
            r matches Ok(req) ==> ({
                &&& self.spec_api_request(req, HttpMethod::Get, false)
                &&& req.url@ == self.spec_project_url() + "/auth/v1/user"@
                &&& req.authorization matches Some(a) && a@ == "Bearer "@ + bearer_token@
                &&& req.body is None
            }),
            r is Err ==> r == Err::<HttpRequest, Error>(Error::InvalidHeaderValue),
    {
        if !is_header_value(self.api_key.as_str()) || !is_header_value(bearer_token) {
            return Err(Error::InvalidHeaderValue);
        }
        let auth = Self::bearer_header(bearer_token);
        Ok(self.assemble(HttpMethod::Get, "/auth/v1/user", false, Some(auth), None))
    }

    /// Shape the user update: a `PUT` to the user endpoint as the bearer of
    /// the given token, writing every field of the update, absent ones as
    /// `null`. Fails exactly when the API key or the token cannot stand in a
    /// header.
    pub fn update_user_request(&self, updated_user: UpdatedUser, bearer_token: &str) -> (r: Result<
        HttpRequest,
        Error,
    >)
        ensures
            r is Ok <==> self.spec_can_bearer_request(bearer_token@),
            r matches Ok(req) ==> ({
                &&& self.spec_api_request(req, HttpMethod::Put, true)
                &&& req.url@ == self.spec_project_url() + "/auth/v1/user"@
                &&& req.authorization matches Some(a) && a@ == "Bearer "@ + bearer_token@
                &&& req.body matches Some(b) && b@ == spec_update_user_body(updated_user)
            }),
            r is Err ==> r == Err::<HttpRequest, Error>(Error::InvalidHeaderValue),
    {
        if !is_header_value(self.api_key.as_str()) || !is_header_value(bearer_token) {
            return Err(Error::InvalidHeaderValue);
        }
        let mut body = String::new();
        body.push('{');
        push_json_string(&mut body, "email");
        body.push(':');
        match &updated_user.email {
            Some(e) => push_json_string(&mut body, e.as_str()),
            None => body.append("null"),
        }
        body.push(',');
        push_json_string(&mut body, "password");
        body.push(':');
        match &updated_user.password {
            Some(p) => push_json_string(&mut body, p.as_str()),
            None => body.append("null"),
        }
        body.push(',');
        push_json_string(&mut body, "data");
        body.push(':');
        match &updated_user.data {
            Some(d) => push_json_string_object(&mut body, d),
            None => body.append("null"),
        }
        body.push('}');
        let auth = Self::bearer_header(bearer_token);
        Ok(self.assemble(HttpMethod::Put, "/auth/v1/user", true, Some(auth), Some(body)))
    }

    /// Shape the ID-token login request: a `POST` of the provider's
    /// identifier and the token to the ID-token-grant token endpoint. Fails
    /// exactly when the API key cannot stand in a header.
    pub fn id_token_request(&self, credentials: IdTokenCredentials) -> (r: Result<
        HttpRequest,
        Error,
    >)
        ensures
            r is Ok <==> self.spec_can_request(),
            r matches Ok(req) ==> ({
                &&& self.spec_api_request(req, HttpMethod::Post, true)
                &&& req.url@ == self.spec_project_url() + "/auth/v1/token?grant_type=id_token"@
                &&& req.authorization is None
                &&& req.body matches Some(b) && b@ == spec_json_string_object(
                    spec_id_token_pairs(credentials),
                )
            }),
            r is Err ==> r == Err::<HttpRequest, Error>(Error::InvalidHeaderValue),
    {
        if !is_header_value(self.api_key.as_str()) {
            return Err(Error::InvalidHeaderValue);
        }
        let mut fields: Vec<(String, String)> = Vec::new();
        fields.push(("provider".to_owned(), credentials.provider.name()));
        fields.push(("token".to_owned(), credentials.token.clone()));
        let mut body = String::new();
        push_json_string_object(&mut body, &fields);
        proof {
            assert(spec_pairs(fields@) =~~= spec_id_token_pairs(credentials));
        }
        Ok(
            self.assemble(
                HttpMethod::Post,
                "/auth/v1/token?grant_type=id_token",
                true,
                None,
                Some(body),
            ),
        )
    }

    /// Shape the invite: a `POST` of the email and optional metadata to the
    /// invite endpoint as the bearer of the given token. Fails exactly when
    /// the API key or the token cannot stand in a header.
    pub fn invite_user_by_email_request(
        &self,
        email: &str,
        data: Option<Vec<(String, String)>>,
        bearer_token: &str,
    ) -> (r: Result<HttpRequest, Error>)
        ensures
            r is Ok <==> self.spec_can_bearer_request(bearer_token@),
            r matches Ok(req) ==> ({
                &&& self.spec_api_request(req, HttpMethod::Post, true)
                &&& req.url@ == self.spec_project_url() + "/auth/v1/invite"@
                &&& req.authorization matches Some(a) && a@ == "Bearer "@ + bearer_token@
                &&& req.body matches Some(b) && b@ == spec_invite_body(email@, spec_opt_data(data))
            }),
            r is Err ==> r == Err::<HttpRequest, Error>(Error::InvalidHeaderValue),
    {
        if !is_header_value(self.api_key.as_str()) || !is_header_value(bearer_token) {
            return Err(Error::InvalidHeaderValue);
        }
        let mut body = String::new();
        body.push('{');
        push_json_member(&mut body, "email", email);
        match &data {
            Some(d) => {
                body.push(',');
                push_json_string(&mut body, "data");
                body.push(':');
                push_json_string_object(&mut body, d);
            },
            None => {},
        }
        body.push('}');
        let auth = Self::bearer_header(bearer_token);
        Ok(self.assemble(HttpMethod::Post, "/auth/v1/invite", true, Some(auth), Some(body)))
    }

    /// Shape the OTP verification request: a `POST` of where the code was
    /// sent, the code, and its kind to the verify endpoint. Fails exactly
    /// when the API key cannot stand in a header.
    pub fn verify_otp_request(&self, params: VerifyOtpParams) -> (r: Result<HttpRequest, Error>)
        ensures
            r is Ok <==> self.spec_can_request(),
            r matches Ok(req) ==> ({
                &&& self.spec_api_request(req, HttpMethod::Post, true)
                &&& req.url@ == self.spec_project_url() + "/auth/v1/verify"@
                &&& req.authorization is None
                &&& req.body matches Some(b) && b@ == spec_json_string_object(
                    spec_verify_otp_pairs(params),
                )
            }),
            r is Err ==> r == Err::<HttpRequest, Error>(Error::InvalidHeaderValue),
    {
        if !is_header_value(self.api_key.as_str()) {
            return Err(Error::InvalidHeaderValue);
        }
        let mut fields: Vec<(String, String)> = Vec::new();
        match &params {
            VerifyOtpParams::Email(e) => {
                fields.push(("email".to_owned(), e.email.clone()));
                fields.push(("token".to_owned(), e.token.clone()));
                fields.push(("type".to_owned(), email_otp_type_name(e.otp_type)));
            },
            VerifyOtpParams::Mobile(m) => {
                fields.push(("phone".to_owned(), m.phone.clone()));
                fields.push(("token".to_owned(), m.token.clone()));
                fields.push(("type".to_owned(), mobile_otp_type_name(m.otp_type)));
            },
        }
        let mut body = String::new();
        push_json_string_object(&mut body, &fields);
        proof {
            assert(spec_pairs(fields@) =~~= spec_verify_otp_pairs(params));
        }
        Ok(self.assemble(HttpMethod::Post, "/auth/v1/verify", true, None, Some(body)))
    }

    /// Shape the health fetch: a `GET` of the health endpoint. Fails exactly
    /// when the API key cannot stand in a header.
    pub fn get_health_request(&self) -> (r: Result<HttpRequest, Error>)
        ensures
            r is Ok <==> self.spec_can_request(),
            r matches Ok(req) ==> ({
                &&& self.spec_api_request(req, HttpMethod::Get, false)
                &&& req.url@ == self.spec_project_url() + "/auth/v1/health"@
                &&& req.authorization is None
                &&& req.body is None
            }),
            r is Err ==> r == Err::<HttpRequest, Error>(Error::InvalidHeaderValue),
    {
        if !is_header_value(self.api_key.as_str()) {
            return Err(Error::InvalidHeaderValue);
        }
        Ok(self.assemble(HttpMethod::Get, "/auth/v1/health", false, None, None))
    }

    /// Shape the settings fetch: a `GET` of the settings endpoint. Fails
    /// exactly when the API key cannot stand in a header.
    pub fn get_settings_request(&self) -> (r: Result<HttpRequest, Error>)
        ensures
            r is Ok <==> self.spec_can_request(),
            r matches Ok(req) ==> ({
                &&& self.spec_api_request(req, HttpMethod::Get, false)
                &&& req.url@ == self.spec_project_url() + "/auth/v1/settings"@
                &&& req.authorization is None
                &&& req.body is None
            }),
            r is Err ==> r == Err::<HttpRequest, Error>(Error::InvalidHeaderValue),
    {
        if !is_header_value(self.api_key.as_str()) {
            return Err(Error::InvalidHeaderValue);
        }
        Ok(self.assemble(HttpMethod::Get, "/auth/v1/settings", false, None, None))
    }

    /// Shape the token refresh: a `POST` of the refresh token to the
    /// refresh-grant token endpoint. Fails exactly when the API key cannot
    /// stand in a header.
    pub fn exchange_token_request(&self, refresh_token: &str) -> (r: Result<HttpRequest, Error>)
        ensures
            r is Ok <==> self.spec_can_request(),
            r matches Ok(req) ==> ({
                &&& self.spec_api_request(req, HttpMethod::Post, true)
                &&& req.url@ == self.spec_project_url()
                    + "/auth/v1/token?grant_type=refresh_token"@
                &&& req.authorization is None
                &&& req.body matches Some(b) && b@ == spec_json_string_object(
                    seq![("refresh_token"@, refresh_token@)],
                )
            }),
            r is Err ==> r == Err::<HttpRequest, Error>(Error::InvalidHeaderValue),
    {
        if !is_header_value(self.api_key.as_str()) {
            return Err(Error::InvalidHeaderValue);
        }
        let mut fields: Vec<(String, String)> = Vec::new();
        fields.push(("refresh_token".to_owned(), refresh_token.to_owned()));
        let mut body = String::new();
        push_json_string_object(&mut body, &fields);
        proof {
            assert(spec_pairs(fields@) =~~= seq![("refresh_token"@, refresh_token@)]);
        }
        Ok(
            self.assemble(
                HttpMethod::Post,
                "/auth/v1/token?grant_type=refresh_token",
                true,
                None,
                Some(body),
            ),
        )
    }

    /// Shape the session refresh: another name for
    /// [`Self::exchange_token_request`], which is the one canonical
    /// construction.
    pub fn refresh_session_request(&self, refresh_token: &str) -> (r: Result<HttpRequest, Error>)
        ensures
            r is Ok <==> self.spec_can_request(),
            r matches Ok(req) ==> ({
                &&& self.spec_api_request(req, HttpMethod::Post, true)
                &&& req.url@ == self.spec_project_url()
                    + "/auth/v1/token?grant_type=refresh_token"@
                &&& req.authorization is None
                &&& req.body matches Some(b) && b@ == spec_json_string_object(
                    seq![("refresh_token"@, refresh_token@)],
                )
            }),
            r is Err ==> r == Err::<HttpRequest, Error>(Error::InvalidHeaderValue),
    {
        self.exchange_token_request(refresh_token)
    }

    /// Shape the password-reset request: a `POST` of the email to the
    /// recover endpoint, with the redirect target, when given, as the
    /// `redirect_to` query parameter. Fails exactly when the API key cannot
    /// stand in a header.
    pub fn reset_password_request(&self, email: &str, options: Option<ResetPasswordOptions>) -> (r:
        Result<HttpRequest, Error>)
        ensures
            r is Ok <==> self.spec_can_request(),
            r matches Ok(req) ==> ({
                let redirect = match options {
                    Some(o) => o.email_redirect_to,
                    None => None,
                };
                &&& self.spec_api_request(req, HttpMethod::Post, true)
                &&& req.url@ == self.spec_project_url() + "/auth/v1/recover"@ + spec_opt_query(
                    "?redirect_to="@,
                    redirect,
                )
                &&& req.authorization is None
                &&& req.body matches Some(b) && b@ == spec_json_string_object(
                    seq![("email"@, email@)],
                )
            }),
            r is Err ==> r == Err::<HttpRequest, Error>(Error::InvalidHeaderValue),
    {
        if !is_header_value(self.api_key.as_str()) {
            return Err(Error::InvalidHeaderValue);
        }
        let mut fields: Vec<(String, String)> = Vec::new();
        fields.push(("email".to_owned(), email.to_owned()));
        let mut body = String::new();
        push_json_string_object(&mut body, &fields);
        proof {
            assert(spec_pairs(fields@) =~~= seq![("email"@, email@)]);
        }
        let mut url = self.project_url.clone();
        url.append("/auth/v1/recover");
        match &options {
            Some(o) => {
                match &o.email_redirect_to {
                    Some(redirect) => {
                        url.append("?redirect_to=");
                        push_urlencoded(&mut url, redirect.as_str());
                    },
                    None => {},
                }
            },
            None => {},
        }
        Ok(self.assemble_at(HttpMethod::Post, url, true, None, Some(body)))
    }

    /// Shape the resend: a `POST` of the kind and the address to the resend
    /// endpoint. Fails exactly when the API key cannot stand in a header.
    pub fn resend_request(&self, credentials: ResendParams) -> (r: Result<HttpRequest, Error>)
        ensures
            r is Ok <==> self.spec_can_request(),
            r matches Ok(req) ==> ({
                &&& self.spec_api_request(req, HttpMethod::Post, true)
                &&& req.url@ == self.spec_project_url() + "/auth/v1/resend"@
                &&& req.authorization is None
                &&& req.body matches Some(b) && b@ == spec_json_string_object(
                    spec_resend_pairs(credentials),
                )
            }),
            r is Err ==> r == Err::<HttpRequest, Error>(Error::InvalidHeaderValue),
    {
        if !is_header_value(self.api_key.as_str()) {
            return Err(Error::InvalidHeaderValue);
        }
        let mut fields: Vec<(String, String)> = Vec::new();
        match &credentials {
            ResendParams::Desktop(d) => {
                fields.push(("type".to_owned(), email_otp_type_name(d.otp_type)));
                fields.push(("email".to_owned(), d.email.clone()));
            },
            ResendParams::Mobile(m) => {
                fields.push(("type".to_owned(), mobile_otp_type_name(m.otp_type)));
                fields.push(("phone".to_owned(), m.phone.clone()));
            },
        }
        let mut body = String::new();
        push_json_string_object(&mut body, &fields);
        proof {
            assert(spec_pairs(fields@) =~~= spec_resend_pairs(credentials));
        }
        Ok(self.assemble(HttpMethod::Post, "/auth/v1/resend", true, None, Some(body)))
    }

    /// Shape the logout: a `POST` of the scope's wire name (or `null`) to
    /// the logout endpoint as the bearer of the given token. Fails exactly
    /// when the API key or the token cannot stand in a header.
    pub fn logout_request(&self, scope: Option<LogoutScope>, bearer_token: &str) -> (r: Result<
        HttpRequest,
        Error,
    >)
        ensures
            r is Ok <==> self.spec_can_bearer_request(bearer_token@),
            r matches Ok(req) ==> ({
                &&& self.spec_api_request(req, HttpMethod::Post, true)
                &&& req.url@ == self.spec_project_url() + "/auth/v1/logout"@
                &&& req.authorization matches Some(a) && a@ == "Bearer "@ + bearer_token@
                &&& req.body matches Some(b) && b@ == spec_logout_body(scope)
            }),
            r is Err ==> r == Err::<HttpRequest, Error>(Error::InvalidHeaderValue),
    {
        if !is_header_value(self.api_key.as_str()) || !is_header_value(bearer_token) {
            return Err(Error::InvalidHeaderValue);
        }
        let body = match scope {
            None => "null".to_owned(),
            Some(LogoutScope::Global) => "\"global\"".to_owned(),
            Some(LogoutScope::Local) => "\"local\"".to_owned(),
            Some(LogoutScope::Others) => "\"others\"".to_owned(),
        };
        let auth = Self::bearer_header(bearer_token);
        Ok(self.assemble(HttpMethod::Post, "/auth/v1/logout", true, Some(auth), Some(body)))
    }

    /// Shape the single-sign-on login: a `POST` of the domain or the
    /// provider, as given, to the sso endpoint. Fails exactly when the API
    /// key cannot stand in a header.
    pub fn sso_request(&self, params: LoginWithSSO) -> (r: Result<HttpRequest, Error>)
        ensures
            r is Ok <==> self.spec_can_request(),
            r matches Ok(req) ==> ({
                &&& self.spec_api_request(req, HttpMethod::Post, true)
                &&& req.url@ == self.spec_project_url() + "/auth/v1/sso"@
                &&& req.authorization is None
                &&& req.body matches Some(b) && b@ == spec_json_string_object(
                    spec_sso_pairs(params),
                )
            }),
            r is Err ==> r == Err::<HttpRequest, Error>(Error::InvalidHeaderValue),
    {
        if !is_header_value(self.api_key.as_str()) {
            return Err(Error::InvalidHeaderValue);
        }
        let mut fields: Vec<(String, String)> = Vec::new();
        match &params.domain {
            Some(d) => fields.push(("domain".to_owned(), d.clone())),
            None => {},
        }
        match &params.provider_id {
            Some(i) => fields.push(("provider_id".to_owned(), i.clone())),
            None => {},
        }
        let mut body = String::new();
        push_json_string_object(&mut body, &fields);
        proof {
            assert(spec_pairs(fields@) =~~= spec_sso_pairs(params));
        }
        Ok(self.assemble(HttpMethod::Post, "/auth/v1/sso", true, None, Some(body)))
    }

    /// Construct the authorization URL that signs a user in through an OAuth
    /// provider. A pure operation: no request is issued. Succeeds with the
    /// constructed URL exactly when that URL parses as an absolute URL, and
    /// fails with a URL-parse error otherwise.
    pub fn login_with_oauth(&self, provider: Provider, options: Option<LoginWithOAuthOptions>) -> (r:
        Result<OAuthResponse, Error>)
        ensures
            ({
                let url = spec_authorize_url(self.spec_project_url(), provider, options);
                &&& spec_url_ok(url) ==> (r matches Ok(resp) && resp.url@ == url && resp.provider
                    == provider)
                &&& !spec_url_ok(url) ==> r == Err::<OAuthResponse, Error>(Error::ParseUrlError)
            }),
    {
        let url = oauth::authorize_url(self.project_url.as_str(), provider, &options);
        if oauth::url_parses(url.as_str()) {
            Ok(OAuthResponse { url, provider })
        } else {
            Err(Error::ParseUrlError)
        }
    }

    /// Construct the authorization URL that signs a user up through an OAuth
    /// provider: the same construction as [`Self::login_with_oauth`].
    pub fn sign_up_with_oauth(&self, provider: Provider, options: Option<LoginWithOAuthOptions>) -> (r:
        Result<OAuthResponse, Error>)
        ensures
            ({
                let url = spec_authorize_url(self.spec_project_url(), provider, options);
                &&& spec_url_ok(url) ==> (r matches Ok(resp) && resp.url@ == url && resp.provider
                    == provider)
                &&& !spec_url_ok(url) ==> r == Err::<OAuthResponse, Error>(Error::ParseUrlError)
            }),
    {
        self.login_with_oauth(provider, options)
    }

    /// Resolve a completed exchange whose success is a session, and cache the
    /// session. `shaped` is the outcome of parsing the body as a session; the
    /// parse wins over the status code. On success the returned session is
    /// also the new cached session, written wholesale; on failure the cache
    /// is left as it was.
    pub fn complete_session_exchange(&mut self, status: u16, shaped: Option<Session>, body: String) -> (r:
        Result<Session, Error>)
        ensures
            final(self).spec_project_url() == old(self).spec_project_url(),
            final(self).spec_api_key() == old(self).spec_api_key(),
            final(self).spec_jwt_secret() == old(self).spec_jwt_secret(),
            shaped matches Some(s) ==> r == Ok::<Session, Error>(s) && final(self).spec_session()
                == Some(s),
            shaped is None ==> (r matches Err(Error::AuthError { status: st, message })
                && st == status && message@ == spec_failure_message(body@)
                && final(self).spec_session() == old(self).spec_session()),
    {
        match shaped {
            Some(s) => {
                let copy = s.clone();
                self.session = Some(copy);
                Ok(s)
            },
            None => Err(resolve::failure(status, body)),
        }
    }

    /// Resolve a completed logout exchange: a `2xx` status is success and
    /// clears the cached session wholesale; any other status is resolved to
    /// an authentication error by the envelope-then-raw-body rule and leaves
    /// the cache as it was.
    pub fn complete_logout(&mut self, status: u16, body: String) -> (r: Result<(), Error>)
        ensures
            final(self).spec_project_url() == old(self).spec_project_url(),
            final(self).spec_api_key() == old(self).spec_api_key(),
            final(self).spec_jwt_secret() == old(self).spec_jwt_secret(),
            spec_is_success_status(status) ==> r == Ok::<(), Error>(())
                && final(self).spec_session() is None,
            !spec_is_success_status(status) ==> (r matches Err(Error::AuthError {
                status: st,
                message,
            }) && st == status && message@ == spec_failure_message(body@)
                && final(self).spec_session() == old(self).spec_session()),
    {
        if 200 <= status && status < 300 {
            self.session = None;
            Ok(())
        } else {
            Err(resolve::failure(status, body))
        }
    }
}

} // verus!
