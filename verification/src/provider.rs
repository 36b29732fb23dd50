//! The identity-provider client: the one place where the library talks to
//! the OAuth2 crate. Only authorization-URL construction happens here; the
//! code-for-token exchange is a network call, so the caller performs it and
//! feeds its outcome back through the flow states of [`crate::auth`].

use vstd::prelude::*;

verus! {

/// Whether `url` carries `token` as a `state` query parameter: somewhere in
/// `url`, the text `state=` stands immediately followed by `token` verbatim.
pub open spec fn carries_state_param(url: Seq<char>, token: Seq<char>) -> bool {
    exists|i: int|
        0 <= i && i + 6 + token.len() <= url.len() && (#[trigger] url.subrange(i, i + 6))
            == "state="@ && url.subrange(i + 6, i + 6 + token.len()) == token
}

/// A configured oauth2 `BasicClient`, held whole and opaquely: the generic
/// parameters of oauth2's client type are bounded by oauth2's own traits,
/// which the verifier cannot take, so the client is wrapped rather than
/// declared. The library only ever asks it for authorization URLs.
#[verifier::external_body]
pub struct ProviderClient {
    client: oauth2::basic::BasicClient,
}

impl ProviderClient {
    /// Relies on oauth2's `BasicClient::new` and `set_redirect_uri`: builds
    /// the client for the given provider credentials, endpoints and
    /// registered redirect URL. Returns `None` exactly when one of the
    /// three URLs does not parse.
    #[verifier::external_body]
    pub fn from_config(
        client_id: &str,
        client_secret: &str,
        auth_url: &str,
        token_url: &str,
        redirect_url: &str,
    ) -> (r: Option<ProviderClient>)
    {
        let auth = oauth2::AuthUrl::new(auth_url.to_string()).ok()?;
        let token = oauth2::TokenUrl::new(token_url.to_string()).ok()?;
        let redirect = oauth2::RedirectUrl::new(redirect_url.to_string()).ok()?;
        let client = oauth2::basic::BasicClient::new(
            oauth2::ClientId::new(client_id.to_string()),
            Some(oauth2::ClientSecret::new(client_secret.to_string())),
            auth,
            Some(token),
        ).set_redirect_uri(redirect);
        Some(ProviderClient { client })
    }

    /// Relies on oauth2's `Client::authorize_url` and
    /// `AuthorizationRequest::url`: the pair is the provider's
    /// authorization-endpoint URL — carrying the two requested scopes and a
    /// freshly generated random CSRF token as its `state` parameter — and
    /// that token itself, 16 random bytes base64-encoded, hence nonempty.
    /// The token's base64url characters survive form-url-encoding verbatim,
    /// so the URL contains `state=` followed by the token, as the third
    /// clause states; the token is random, so nothing more is assumed.
    #[verifier::external_body]
    pub(crate) fn authorize_url(&self, profile_scope: &str, email_scope: &str) -> (r: (
        String,
        String,
    ))
        ensures
            r.0@.len() > 0,
            r.1@.len() > 0,
            carries_state_param(r.0@, r.1@),
    {
        let (url, token) = self.client
            .authorize_url(oauth2::CsrfToken::new_random)
            .add_scope(oauth2::Scope::new(profile_scope.to_string()))
            .add_scope(oauth2::Scope::new(email_scope.to_string()))
            .url();
        (url.to_string(), token.secret().clone())
    }
}

} // verus!
