//! OAuth providers and authorization-URL construction.
//!
//! Building an authorization URL is a pure operation: the provider and any
//! extra query parameters are appended, form-urlencoded, to the authorize
//! endpoint under the client's base URL. No request is issued; the caller
//! directs a user agent to the returned URL.

use vstd::prelude::*;
use vstd::string::StringExecFns;

use crate::json::spec_pairs;
use crate::urlenc::{
    push_query, spec_is_form_unreserved, spec_query, spec_query_pair, spec_urlencoded,
    spec_urlencoded_char,
};

verus! {

/// An external identity provider that the server can be configured to accept.
#[derive(Clone, Copy, Debug, PartialEq, Eq, Structural)]
pub enum Provider {
    Apple,
    Azure,
    Bitbucket,
    Discord,
    Facebook,
    Figma,
    Github,
    Gitlab,
    Google,
    Keycloak,
    Linkedin,
    Notion,
    Slack,
    Spotify,
    Twitch,
    Twitter,
    Workos,
    Zoom,
}

/// The identifier under which the server knows each provider; the value of
/// the `provider` query parameter.
pub open spec fn spec_provider_name(p: Provider) -> Seq<char> {
    match p {
        Provider::Apple => "apple"@,
        Provider::Azure => "azure"@,
        Provider::Bitbucket => "bitbucket"@,
        Provider::Discord => "discord"@,
        Provider::Facebook => "facebook"@,
        Provider::Figma => "figma"@,
        Provider::Github => "github"@,
        Provider::Gitlab => "gitlab"@,
        Provider::Google => "google"@,
        Provider::Keycloak => "keycloak"@,
        Provider::Linkedin => "linkedin"@,
        Provider::Notion => "notion"@,
        Provider::Slack => "slack"@,
        Provider::Spotify => "spotify"@,
        Provider::Twitch => "twitch"@,
        Provider::Twitter => "twitter"@,
        Provider::Workos => "workos"@,
        Provider::Zoom => "zoom"@,
    }
}

impl Provider {
    /// The provider's identifier as a string.
    pub fn name(&self) -> (r: String)
        ensures
            r@ == spec_provider_name(*self),
    {
        match self {
            Provider::Apple => "apple".to_owned(),
            Provider::Azure => "azure".to_owned(),
            Provider::Bitbucket => "bitbucket".to_owned(),
            Provider::Discord => "discord".to_owned(),
            Provider::Facebook => "facebook".to_owned(),
            Provider::Figma => "figma".to_owned(),
            Provider::Github => "github".to_owned(),
            Provider::Gitlab => "gitlab".to_owned(),
            Provider::Google => "google".to_owned(),
            Provider::Keycloak => "keycloak".to_owned(),
            Provider::Linkedin => "linkedin".to_owned(),
            Provider::Notion => "notion".to_owned(),
            Provider::Slack => "slack".to_owned(),
            Provider::Spotify => "spotify".to_owned(),
            Provider::Twitch => "twitch".to_owned(),
            Provider::Twitter => "twitter".to_owned(),
            Provider::Workos => "workos".to_owned(),
            Provider::Zoom => "zoom".to_owned(),
        }
    }
}

/// Options accepted by the OAuth URL construction.
#[derive(Clone, Debug, PartialEq)]
pub struct LoginWithOAuthOptions {
    /// Extra query parameters, appended in order.
    pub query_params: Option<Vec<(String, String)>>,
    /// Where the provider should send the user afterwards; appended as the
    /// `email_redirect_to` parameter.
    pub redirect_to: Option<String>,
    /// Space-separated scopes to request from the provider; appended as the
    /// `scopes` parameter.
    pub scopes: Option<String>,
    /// Whether the caller intends to skip the browser redirect itself.
    pub skip_browser_redirect: Option<bool>,
}

/// The result of OAuth URL construction: where to send the user agent, and
/// for which provider.
#[derive(Clone, Debug, PartialEq)]
pub struct OAuthResponse {
    pub url: String,
    pub provider: Provider,
}

/// Whether a text parses as an absolute URL.
pub uninterp spec fn spec_url_ok(s: Seq<char>) -> bool;

/// Relies on `url::Url::parse`: whether the text parses as an absolute URL.
/// The result depends on the text alone.
#[verifier::external_body]
pub(crate) fn url_parses(s: &str) -> (r: bool)
    ensures
        r == spec_url_ok(s@),
{
    url::Url::parse(s).is_ok()
}

/// The query parameters of an authorization URL, in order: `provider` first,
/// then `email_redirect_to` when a redirect target is given, then `scopes`
/// when scopes are given, then each extra pair as supplied.
pub open spec fn spec_authorize_pairs(provider: Provider, options: Option<LoginWithOAuthOptions>) -> Seq<
    (Seq<char>, Seq<char>),
> {
    let head = seq![("provider"@, spec_provider_name(provider))];
    match options {
        None => head,
        Some(o) => {
            let with_redirect = match o.redirect_to {
                Some(r) => head + seq![("email_redirect_to"@, r@)],
                None => head,
            };
            let with_scopes = match o.scopes {
                Some(sc) => with_redirect + seq![("scopes"@, sc@)],
                None => with_redirect,
            };
            match o.query_params {
                Some(q) => with_scopes + spec_pairs(q@),
                None => with_scopes,
            }
        },
    }
}

/// The authorization URL: the authorize endpoint under the base URL,
/// followed by the form-urlencoded query parameters.
pub open spec fn spec_authorize_url(
    base: Seq<char>,
    provider: Provider,
    options: Option<LoginWithOAuthOptions>,
) -> Seq<char> {
    base + "/auth/v1/authorize?"@ + spec_query(spec_authorize_pairs(provider, options))
}

/// Construct the authorization URL for a provider under a base URL.
pub fn authorize_url(base: &str, provider: Provider, options: &Option<LoginWithOAuthOptions>) -> (r:
    String)
    ensures
        r@ == spec_authorize_url(base@, provider, *options),
{
    let mut pairs: Vec<(String, String)> = Vec::new();
    pairs.push(("provider".to_owned(), provider.name()));
    match options {
        Some(o) => {
            match &o.redirect_to {
                Some(redirect) => {
                    pairs.push(("email_redirect_to".to_owned(), redirect.clone()));
                },
                None => {},
            }
            match &o.scopes {
                Some(scopes) => {
                    pairs.push(("scopes".to_owned(), scopes.clone()));
                },
                None => {},
            }
            match &o.query_params {
                Some(extra) => {
                    let ghost prefix = pairs@;
                    let n = extra.len();
                    let mut i: usize = 0;
                    while i < n
                        invariant
                            n == extra@.len(),
                            i <= n,
                            pairs@ == prefix + extra@.subrange(0, i as int),
                        decreases n - i,
                    {
                        pairs.push((extra[i].0.clone(), extra[i].1.clone()));
                        proof {
                            assert(pairs@ =~= prefix + extra@.subrange(0, i + 1 as int));
                        }
                        i = i + 1;
                    }
                    proof {
                        assert(extra@.subrange(0, extra@.len() as int) =~= extra@);
                    }
                },
                None => {},
            }
        },
        None => {},
    }
    proof {
        assert(spec_pairs(pairs@) =~~= spec_authorize_pairs(provider, *options));
    }
    let mut url = base.to_owned();
    url.append("/auth/v1/authorize?");
    push_query(&mut url, &pairs);
    url
}

/// Form-urlencoding leaves a text of unreserved characters as it is.
pub proof fn lemma_urlencoded_unreserved(s: Seq<char>)
    requires
        forall|i: int| 0 <= i < s.len() ==> spec_is_form_unreserved(#[trigger] s[i]),
    ensures
        spec_urlencoded(s) == s,
    decreases s.len(),
{
    if s.len() == 0 {
        assert(spec_urlencoded(s) =~= s);
    } else {
        lemma_urlencoded_unreserved(s.drop_last());
        assert(spec_urlencoded_char(s.last()) == seq![s.last()]);
        assert(s.drop_last() + seq![s.last()] =~= s);
        assert(spec_urlencoded(s) =~= s);
    }
}

/// Every provider identifier consists of unreserved characters, so it stands
/// in a query string exactly as it is.
pub proof fn lemma_provider_name_unencoded(p: Provider)
    ensures
        spec_urlencoded(spec_provider_name(p)) == spec_provider_name(p),
{
    reveal_strlit("apple");
    reveal_strlit("azure");
    reveal_strlit("bitbucket");
    reveal_strlit("discord");
    reveal_strlit("facebook");
    reveal_strlit("figma");
    reveal_strlit("github");
    reveal_strlit("gitlab");
    reveal_strlit("google");
    reveal_strlit("keycloak");
    reveal_strlit("linkedin");
    reveal_strlit("notion");
    reveal_strlit("slack");
    reveal_strlit("spotify");
    reveal_strlit("twitch");
    reveal_strlit("twitter");
    reveal_strlit("workos");
    reveal_strlit("zoom");
    lemma_urlencoded_unreserved(spec_provider_name(p));
}

/// With no options, the authorization URL is exactly the authorize endpoint
/// followed by the single query parameter `provider=<identifier>`: nothing
/// else stands in the query string.
pub proof fn lemma_authorize_url_provider_only(base: Seq<char>, provider: Provider)
    ensures
        spec_authorize_url(base, provider, None) == base + "/auth/v1/authorize?"@ + "provider="@
            + spec_provider_name(provider),
{
    reveal_strlit("provider");
    reveal_strlit("provider=");
    lemma_urlencoded_unreserved("provider"@);
    lemma_provider_name_unencoded(provider);
    let pairs = spec_authorize_pairs(provider, None);
    assert(spec_query(pairs) == spec_query_pair("provider"@, spec_provider_name(provider)));
    assert("provider"@ + seq!['='] =~= "provider="@);
    assert(spec_authorize_url(base, provider, None) =~= base + "/auth/v1/authorize?"@
        + "provider="@ + spec_provider_name(provider));
}

/// With options, the query parameters are exactly: `provider` first, then
/// `email_redirect_to` exactly when a redirect target is given, then
/// `scopes` exactly when scopes are given, then each extra pair once, in the
/// order supplied — none dropped, none duplicated.
pub proof fn lemma_authorize_pairs_exact(provider: Provider, o: LoginWithOAuthOptions)
    ensures
        ({
            let pairs = spec_authorize_pairs(provider, Some(o));
            let redirect_count: int = if o.redirect_to is Some {
                1
            } else {
                0
            };
            let scopes_count: int = if o.scopes is Some {
                1
            } else {
                0
            };
            let extra_count: int = match o.query_params {
                Some(q) => q@.len() as int,
                None => 0,
            };
            &&& pairs.len() == 1 + redirect_count + scopes_count + extra_count
            &&& pairs[0] == ("provider"@, spec_provider_name(provider))
            &&& (o.redirect_to matches Some(r) ==> pairs[1] == ("email_redirect_to"@, r@))
            &&& (o.scopes matches Some(sc) ==> pairs[1 + redirect_count] == ("scopes"@, sc@))
            &&& (o.query_params matches Some(q) ==> forall|i: int|
                0 <= i < q@.len() ==> pairs[1 + redirect_count + scopes_count + i] == (
                    (#[trigger] q@[i]).0@,
                    q@[i].1@,
                ))
        }),
{
}

} // verus!
