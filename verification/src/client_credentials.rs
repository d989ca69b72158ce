//! The client-credentials authorization strategy.
//!
//! One token exchange is a single HTTPS POST of a form-encoded body to the
//! tenant's token endpoint. This module plans that request and interprets
//! the decoded response; executing the POST is the transport's job.

use crate::auth::{ExpiringToken, Token as TokenAccess};
use crate::provider::{check_status, Error};
use vstd::prelude::*;

verus! {

/// The `application/x-www-form-urlencoded` encoding of a sequence of
/// key/value pairs, as `serde_urlencoded` computes it.
pub uninterp spec fn form_urlencoded_of(pairs: Seq<(Seq<char>, Seq<char>)>) -> Seq<char>;

/// Relies on `serde_urlencoded::to_string`: the form encoding of a sequence
/// of string pairs depends on the pairs alone, and for string keys and
/// values its serializer has no failure path.
#[verifier::external_body]
fn urlencode_pairs(pairs: &Vec<(String, String)>) -> (r: String)
    ensures
        r@ == form_urlencoded_of(pairs.deep_view()),
{
    serde_urlencoded::to_string(pairs.as_slice()).expect("string pairs always encode")
}

/// The decoded body of a successful token exchange.
#[derive(Debug, Clone)]
pub struct AuthResponse {
    /// The requested access token.
    pub access_token: String,
    /// How long the token stays valid, in seconds.
    pub expires_in: u64,
}

/// A bearer token with the instant at which it stops being valid.
#[derive(Debug)]
pub struct Token {
    pub access_token: String,
    pub expires_at: u64,
}

impl Clone for Token {
    /// An exact copy.
    fn clone(&self) -> (r: Self)
        ensures
            r == self,
    {
        Token { access_token: self.access_token.clone(), expires_at: self.expires_at }
    }
}

impl Token {
    /// Stamps a token exchange response with its expiry instant: the
    /// response's lifetime counted from `now`.
    pub fn from_auth_response(auth: AuthResponse, now: u64) -> (r: Token)
        requires
            now + auth.expires_in <= u64::MAX,
        ensures
            r.access_token@ == auth.access_token@,
            r.expires_at == now + auth.expires_in,
    {
        let AuthResponse { access_token, expires_in } = auth;
        Token { access_token, expires_at: now + expires_in }
    }
}

impl TokenAccess for Token {
    open spec fn spec_access_token(&self) -> Seq<char> {
        self.access_token@
    }

    fn access_token(&self) -> (r: &str) {
        self.access_token.as_str()
    }
}

impl ExpiringToken for Token {
    open spec fn spec_expires_at(&self) -> u64 {
        self.expires_at
    }

    fn expires_at(&self) -> (r: u64) {
        self.expires_at
    }
}

/// The credentials of one client, bound to one tenant.
pub struct ClientCredentials {
    pub client_id: String,
    pub client_secret: String,
    pub scopes: Vec<String>,
    pub tenant_id: String,
}

/// The planned token exchange: a POST of `body`, form-encoded, to `url`.
#[derive(Debug, Clone)]
pub struct AuthRequest {
    pub url: String,
    pub body: String,
}

/// The tenant-scoped token endpoint.
pub open spec fn spec_token_url(tenant_id: Seq<char>) -> Seq<char> {
    "https://login.microsoftonline.com/"@ + tenant_id + "/oauth2/v2.0/token"@
}

/// The form fields of a token exchange: the grant type, the client's
/// credentials, and the space-joined scope list.
pub open spec fn spec_token_pairs(
    client_id: Seq<char>,
    client_secret: Seq<char>,
    scope: Seq<char>,
) -> Seq<(Seq<char>, Seq<char>)> {
    seq![
        ("grant_type"@, "client_credentials"@),
        ("client_id"@, client_id),
        ("client_secret"@, client_secret),
        ("scope"@, scope),
    ]
}

/// The scope list joined by single spaces.
pub open spec fn spec_join_scopes(scopes: Seq<Seq<char>>) -> Seq<char>
    decreases scopes.len(),
{
    if scopes.len() == 0 {
        Seq::empty()
    } else if scopes.len() == 1 {
        scopes[0]
    } else {
        spec_join_scopes(scopes.drop_last()) + seq![' '] + scopes.last()
    }
}

/// Joins the scope list with single spaces.
pub fn join_scopes(scopes: &Vec<String>) -> (r: String)
    ensures
        r@ == spec_join_scopes(scopes.deep_view()),
{
    proof {
        reveal_strlit(" ");
        assert(" "@ =~= seq![' ']);
    }
    let mut r = String::new();
    let mut i: usize = 0;
    proof {
        assert(scopes.deep_view().take(0) =~= Seq::<Seq<char>>::empty());
    }
    while i < scopes.len()
        invariant
            i <= scopes.len(),
            " "@ == seq![' '],
            r@ == spec_join_scopes(scopes.deep_view().take(i as int)),
        decreases scopes.len() - i,
    {
        proof {
            assert(scopes.deep_view().take(i + 1).drop_last() =~= scopes.deep_view().take(
                i as int,
            ));
            assert(scopes.deep_view().take(i + 1).last() == scopes.deep_view()[i as int]);
        }
        if i > 0 {
            r.append(" ");
        }
        r.append(scopes[i].as_str());
        i = i + 1;
    }
    proof {
        assert(scopes.deep_view().take(scopes.len() as int) =~= scopes.deep_view());
    }
    r
}

impl ClientCredentials {
    /// Plans the token exchange: a form-encoded body carrying the grant
    /// type, the client's credentials and the space-joined scopes, addressed
    /// to the tenant's token endpoint.
    pub fn token_request(&self) -> (r: AuthRequest)
        ensures
            r.url@ == spec_token_url(self.tenant_id@),
            r.body@ == form_urlencoded_of(
                spec_token_pairs(
                    self.client_id@,
                    self.client_secret@,
                    spec_join_scopes(self.scopes.deep_view()),
                ),
            ),
    {
        let scope = join_scopes(&self.scopes);
        let mut pairs: Vec<(String, String)> = Vec::new();
        pairs.push((String::from_str("grant_type"), String::from_str("client_credentials")));
        pairs.push((String::from_str("client_id"), self.client_id.clone()));
        pairs.push((String::from_str("client_secret"), self.client_secret.clone()));
        pairs.push((String::from_str("scope"), scope));
        proof {
            assert(pairs.deep_view() =~~= spec_token_pairs(
                self.client_id@,
                self.client_secret@,
                spec_join_scopes(self.scopes.deep_view()),
            ));
        }
        let body = urlencode_pairs(&pairs);

        let url = String::from_str("https://login.microsoftonline.com/");
        let url = url.concat(self.tenant_id.as_str());
        let url = url.concat("/oauth2/v2.0/token");
        AuthRequest { url, body }
    }
}

/// Interprets the decoded response of a token exchange: a non-2xx status is
/// an error carrying the code, a 2xx body that did not decode is a decode
/// error, and a decoded body becomes a token expiring `expires_in` seconds
/// after `now`.
pub fn auth_outcome(status_code: u16, body: Option<AuthResponse>, now: u64) -> (r: Result<
    Token,
    Error,
>)
    requires
        body matches Some(a) ==> now + a.expires_in <= u64::MAX,
    ensures
        !(200 <= status_code < 300) ==> (r matches Err(e) && e matches Error::Server(s)
            && s.status_code == status_code),
        200 <= status_code < 300 ==> match body {
            Some(a) => r matches Ok(t) && t.access_token@ == a.access_token@ && t.expires_at == now
                + a.expires_in,
            None => r == Err::<Token, Error>(Error::Decode),
        },
{
    match check_status(status_code) {
        Err(e) => Err(Error::Server(e)),
        Ok(()) => match body {
            None => Err(Error::Decode),
            Some(a) => Ok(Token::from_auth_response(a, now)),
        },
    }
}

} // verus!
