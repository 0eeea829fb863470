//! The OAuth2 authorization-code client: authorization request building,
//! anti-CSRF state validation of the callback result, and the token
//! exchange, all over PKCE.
//!
//! Network requests, the browser launch and the callback HTTP server are
//! plumbing outside this library; they hand in each response as a status
//! code and a body.

use vstd::prelude::*;

use crate::encoding::pct_of;
use crate::encoding::pct_encode;
use crate::jsonval::json_str1;
use crate::jsonval::json_str1_of;
use crate::jsonval::json_u64_1;
use crate::jsonval::json_u64_1_of;
use crate::jsonval::json_wellformed;
use crate::jsonval::json_wellformed_of;
use crate::jsonval::opt_str_view;
use crate::jsonval::nonempty;
use crate::listener::CallbackResult;
use crate::listener::view_of_result;
use crate::listener::views_of_pairs;
use crate::pkce::PkcePair;
use crate::pkce::challenge_of;
use crate::pkce::generate_random_string;
use crate::pkce::is_alphanumeric_char;
use crate::pkce::utf8_bytes_of;

verus! {

use vstd::string::StringExecFns;

/// The length of the fresh anti-CSRF state token drawn for each flow.
pub const STATE_LENGTH: usize = 32;

/// A failure of the authorization or token-exchange stage.
#[derive(Debug, Clone, PartialEq, Eq)]
pub enum OAuthError {
    /// Network or transport failure; reported by the caller that performs
    /// the request, never by the logic here.
    Http,
    /// The response status was not 200.
    NotOk,
    /// A response body was not well-formed JSON.
    JsonError,
    /// The callback fired without an authorization code.
    CodeErr,
    /// The state echoed by the provider did not match the one sent.
    StateMismatch,
    /// The callback listener could not bind its port.
    ListenerBind,
    /// No callback arrived within the bounded wait.
    ListenerTimeout,
    /// The token endpoint refused the exchange or answered with a body that
    /// holds no token set; carries the provider's error payload if present.
    TokenExchange(Option<String>),
}

/// The token set a successful exchange yields.
#[derive(Debug, Clone)]
pub struct TokenSet {
    pub access_token: String,
    pub token_type: String,
    pub expires_in: u64,
    pub refresh_token: Option<String>,
    pub id_token: Option<String>,
}

/// An OAuth2 client driving one authorization-code flow with PKCE.
pub struct OAuth2Client {
    pub client_id: String,
    pub client_secret: String,
    pub redirect_uri: String,
    pub authorization_endpoint: String,
    pub token_endpoint: String,
    pub acr_values: String,
    pub state: String,
    pub code_verifier: String,
    pub code_challenge: String,
    pub authorization_code: String,
    pub access_token: String,
}

/// The configuration fields of two client values agree.
pub open spec fn same_config(a: OAuth2Client, b: OAuth2Client) -> bool {
    &&& a.client_id@ == b.client_id@
    &&& a.client_secret@ == b.client_secret@
    &&& a.redirect_uri@ == b.redirect_uri@
    &&& a.authorization_endpoint@ == b.authorization_endpoint@
    &&& a.token_endpoint@ == b.token_endpoint@
    &&& a.acr_values@ == b.acr_values@
}

/// The per-flow fields of two client values agree.
pub open spec fn same_flow_state(a: OAuth2Client, b: OAuth2Client) -> bool {
    &&& a.state@ == b.state@
    &&& a.code_verifier@ == b.code_verifier@
    &&& a.code_challenge@ == b.code_challenge@
    &&& a.authorization_code@ == b.authorization_code@
    &&& a.access_token@ == b.access_token@
}

/// The query parameters of the authorization request, in order, per the
/// flow's fixed protocol constants.
pub open spec fn auth_params_of(c: OAuth2Client) -> Seq<(Seq<char>, Seq<char>)> {
    seq![
        ("response_type"@, "code"@),
        ("client_id"@, c.client_id@),
        ("redirect_uri"@, c.redirect_uri@),
        ("acr_values"@, c.acr_values@),
        ("prompt"@, "Login"@),
        ("scope"@, "openid wsp spa leases"@),
        ("code_challenge"@, c.code_challenge@),
        ("code_challenge_method"@, "S256"@),
        ("response_mode"@, "form_post"@),
        ("state"@, c.state@),
    ]
}

/// The form fields of the token-exchange request, per RFC 6749 §4.1.3; the
/// client secret is sent only when the client is confidential, that is when
/// a non-empty secret is configured.
pub open spec fn token_params_of(c: OAuth2Client) -> Seq<(Seq<char>, Seq<char>)> {
    let base = seq![
        ("grant_type"@, "authorization_code"@),
        ("code"@, c.authorization_code@),
        ("redirect_uri"@, c.redirect_uri@),
        ("client_id"@, c.client_id@),
        ("code_verifier"@, c.code_verifier@),
    ];
    if c.client_secret@.len() > 0 {
        base + seq![("client_secret"@, c.client_secret@)]
    } else {
        base
    }
}

/// The `access_token` string of a token-endpoint response body.
pub open spec fn access_token_of(body: Seq<char>) -> Option<Seq<char>> {
    json_str1_of(body, "access_token"@)
}

/// The `token_type` string of a token-endpoint response body.
pub open spec fn token_type_of(body: Seq<char>) -> Option<Seq<char>> {
    json_str1_of(body, "token_type"@)
}

/// The `expires_in` integer of a token-endpoint response body.
pub open spec fn expires_in_of(body: Seq<char>) -> Option<u64> {
    json_u64_1_of(body, "expires_in"@)
}

/// The optional `refresh_token` string of a token-endpoint response body.
pub open spec fn refresh_token_of(body: Seq<char>) -> Option<Seq<char>> {
    json_str1_of(body, "refresh_token"@)
}

/// The optional `id_token` string of a token-endpoint response body.
pub open spec fn id_token_of(body: Seq<char>) -> Option<Seq<char>> {
    json_str1_of(body, "id_token"@)
}

/// The provider's `error` member of a token-endpoint response body, when
/// one is present.
pub open spec fn error_payload_of(body: Seq<char>) -> Option<Seq<char>> {
    json_str1_of(body, "error"@)
}

/// The body holds a token set: well-formed JSON with a non-empty access
/// token, a token type, and an expiry.
pub open spec fn token_set_present(body: Seq<char>) -> bool {
    &&& json_wellformed_of(body)
    &&& nonempty(access_token_of(body))
    &&& token_type_of(body) is Some
    &&& expires_in_of(body) is Some
}

/// One `key=value` form segment, both sides percent-encoded.
pub open spec fn pair_encoding_of(p: (Seq<char>, Seq<char>)) -> Seq<char> {
    pct_of(utf8_bytes_of(p.0)) + seq!['='] + pct_of(utf8_bytes_of(p.1))
}

/// The remaining segments of a form encoding, each preceded by '&'.
pub open spec fn amp_tail_of(ps: Seq<(Seq<char>, Seq<char>)>) -> Seq<char>
    decreases ps.len(),
{
    if ps.len() == 0 {
        Seq::<char>::empty()
    } else {
        seq!['&'] + pair_encoding_of(ps[0]) + amp_tail_of(ps.skip(1))
    }
}

/// The form/query encoding of a parameter list: percent-encoded pairs
/// joined with '&'.
pub open spec fn urlencoded_of(ps: Seq<(Seq<char>, Seq<char>)>) -> Seq<char> {
    if ps.len() == 0 {
        Seq::<char>::empty()
    } else {
        pair_encoding_of(ps[0]) + amp_tail_of(ps.skip(1))
    }
}

/// Encodes one pair as `key=value`, both sides percent-encoded.
fn encode_pair(k: &String, v: &String) -> (r: String)
    ensures
        r@ == pair_encoding_of((k@, v@)),
{
    let mut out = pct_encode(k.as_str().as_bytes());
    out.push('=');
    let ev = pct_encode(v.as_str().as_bytes());
    out.append(ev.as_str());
    out
}

/// Form-encodes a parameter list, per the application/x-www-form-urlencoded
/// shape the authorization query and the token request body share.
pub fn build_query(params: &Vec<(String, String)>) -> (r: String)
    ensures
        r@ == urlencoded_of(views_of_pairs(params@)),
{
    let ghost ps = views_of_pairs(params@);
    if params.len() == 0 {
        let out = String::new();
        return out;
    }
    let mut out = encode_pair(&params[0].0, &params[0].1);
    proof {
        assert(ps[0] == (params@[0].0@, params@[0].1@));
    }
    let mut i: usize = 1;
    while i < params.len()
        invariant
            1 <= i <= params@.len(),
            ps == views_of_pairs(params@),
            ps.len() == params@.len(),
            out@ + amp_tail_of(ps.skip(i as int)) == urlencoded_of(ps),
        decreases params@.len() - i,
    {
        out.push('&');
        let ep = encode_pair(&params[i].0, &params[i].1);
        out.append(ep.as_str());
        proof {
            assert(ps[i as int] == (params@[i as int].0@, params@[i as int].1@));
            assert(ps.skip(i as int)[0] == ps[i as int]);
            assert(ps.skip(i as int).skip(1) =~= ps.skip(i + 1));
        }
        i = i + 1;
    }
    proof {
        assert(ps.skip(i as int) =~= Seq::<(Seq<char>, Seq<char>)>::empty());
        assert(out@ =~= urlencoded_of(ps));
    }
    out
}

impl OAuth2Client {
    /// A client configured for one provider, with an empty flow state.
    pub fn new(
        client_id: String,
        client_secret: String,
        redirect_uri: String,
        authorization_endpoint: String,
        token_endpoint: String,
        acr_values: String,
    ) -> (r: Self)
        ensures
            r.client_id@ == client_id@,
            r.client_secret@ == client_secret@,
            r.redirect_uri@ == redirect_uri@,
            r.authorization_endpoint@ == authorization_endpoint@,
            r.token_endpoint@ == token_endpoint@,
            r.acr_values@ == acr_values@,
            r.state@ == Seq::<char>::empty(),
            r.code_verifier@ == Seq::<char>::empty(),
            r.code_challenge@ == Seq::<char>::empty(),
            r.authorization_code@ == Seq::<char>::empty(),
            r.access_token@ == Seq::<char>::empty(),
    {
        Self {
            client_id,
            client_secret,
            redirect_uri,
            authorization_endpoint,
            token_endpoint,
            acr_values,
            state: String::new(),
            code_verifier: String::new(),
            code_challenge: String::new(),
            authorization_code: String::new(),
            access_token: String::new(),
        }
    }

    /// Draws the fresh per-flow secrets: a PKCE verifier with its challenge
    /// and an unpredictable anti-CSRF state token.
    pub fn prepare_authorization(&mut self)
        ensures
            same_config(*final(self), *old(self)),
            final(self).code_verifier@.len() == crate::pkce::VERIFIER_LENGTH,
            forall|i: int|
                0 <= i < final(self).code_verifier@.len() ==> is_alphanumeric_char(
                    #[trigger] final(self).code_verifier@[i],
                ),
            final(self).code_challenge@ == challenge_of(
                utf8_bytes_of(final(self).code_verifier@),
            ),
            final(self).state@.len() == STATE_LENGTH,
            forall|i: int|
                0 <= i < final(self).state@.len() ==> is_alphanumeric_char(
                    #[trigger] final(self).state@[i],
                ),
            final(self).authorization_code@ == old(self).authorization_code@,
            final(self).access_token@ == old(self).access_token@,
    {
        let pair = PkcePair::generate();
        self.code_verifier = pair.verifier;
        self.code_challenge = pair.challenge;
        self.state = generate_random_string(STATE_LENGTH);
    }

    /// The authorization request's query parameters, in order.
    pub fn authorization_request_params(&self) -> (r: Vec<(String, String)>)
        ensures
            views_of_pairs(r@) == auth_params_of(*self),
    {
        let mut params: Vec<(String, String)> = Vec::new();
        params.push(("response_type".to_owned(), "code".to_owned()));
        params.push(("client_id".to_owned(), self.client_id.clone()));
        params.push(("redirect_uri".to_owned(), self.redirect_uri.clone()));
        params.push(("acr_values".to_owned(), self.acr_values.clone()));
        params.push(("prompt".to_owned(), "Login".to_owned()));
        params.push(("scope".to_owned(), "openid wsp spa leases".to_owned()));
        params.push(("code_challenge".to_owned(), self.code_challenge.clone()));
        params.push(("code_challenge_method".to_owned(), "S256".to_owned()));
        params.push(("response_mode".to_owned(), "form_post".to_owned()));
        params.push(("state".to_owned(), self.state.clone()));
        proof {
            assert(views_of_pairs(params@) =~= auth_params_of(*self));
        }
        params
    }

    /// The full authorization URL: the authorization endpoint with the
    /// form-encoded query appended.
    pub fn build_authorization_url(&self) -> (r: String)
        ensures
            r@ == self.authorization_endpoint@ + seq!['?'] + urlencoded_of(auth_params_of(*self)),
    {
        let params = self.authorization_request_params();
        let query = build_query(&params);
        let mut url = self.authorization_endpoint.clone();
        url.push('?');
        url.append(query.as_str());
        url
    }

    /// Accepts the callback result: rejects a result without a code, then
    /// validates the echoed state against the one sent — a mismatch is
    /// fatal even though a code is present — and only then stores the
    /// authorization code.
    pub fn complete_authorization(&mut self, result: CallbackResult) -> (r: Result<(), OAuthError>)
        ensures
            ({
                let v = view_of_result(result);
                &&& (v.code is None ==> r == Err::<(), OAuthError>(OAuthError::CodeErr))
                &&& (v.code is Some && v.returned_state != Some(old(self).state@) ==> r == Err::<
                    (),
                    OAuthError,
                >(OAuthError::StateMismatch))
                &&& (v.code is Some && v.returned_state == Some(old(self).state@) ==> {
                    &&& r == Ok::<(), OAuthError>(())
                    &&& final(self).authorization_code@ == v.code->0
                })
                &&& (r matches Err(_) ==> same_flow_state(*final(self), *old(self)))
                &&& same_config(*final(self), *old(self))
                &&& final(self).state@ == old(self).state@
                &&& final(self).code_verifier@ == old(self).code_verifier@
                &&& final(self).code_challenge@ == old(self).code_challenge@
                &&& final(self).access_token@ == old(self).access_token@
            }),
    {
        let code = match result.code {
            Some(c) => c,
            None => {
                return Err(OAuthError::CodeErr);
            },
        };
        match result.returned_state {
            Some(returned) => {
                if returned.eq(&self.state) {
                    self.authorization_code = code;
                    Ok(())
                } else {
                    Err(OAuthError::StateMismatch)
                }
            },
            None => Err(OAuthError::StateMismatch),
        }
    }

    /// The token-exchange request's form fields, in order.
    pub fn token_request_params(&self) -> (r: Vec<(String, String)>)
        ensures
            views_of_pairs(r@) == token_params_of(*self),
    {
        let mut params: Vec<(String, String)> = Vec::new();
        params.push(("grant_type".to_owned(), "authorization_code".to_owned()));
        params.push(("code".to_owned(), self.authorization_code.clone()));
        params.push(("redirect_uri".to_owned(), self.redirect_uri.clone()));
        params.push(("client_id".to_owned(), self.client_id.clone()));
        params.push(("code_verifier".to_owned(), self.code_verifier.clone()));
        if !self.client_secret.as_str().is_empty() {
            params.push(("client_secret".to_owned(), self.client_secret.clone()));
        }
        proof {
            assert(views_of_pairs(params@) =~= token_params_of(*self));
        }
        params
    }

    /// The form-encoded token-exchange request body.
    pub fn token_request_body(&self) -> (r: String)
        ensures
            r@ == urlencoded_of(token_params_of(*self)),
    {
        let params = self.token_request_params();
        build_query(&params)
    }

    /// Reads the token endpoint's response. A 200 response whose body
    /// holds a token set yields exactly that set and stores its access
    /// token; a non-200 response or a body without one is a token-exchange
    /// error carrying the provider's `error` payload when present, and
    /// changes nothing.
    pub fn retrieve_token(&mut self, status: u16, body: &str) -> (r: Result<TokenSet, OAuthError>)
        ensures
            status != 200 ==> (r matches Err(e) && e matches OAuthError::TokenExchange(p)
                && opt_str_view(p) == error_payload_of(body@)),
            (status == 200 && !token_set_present(body@)) ==> (r matches Err(e) && e matches
                OAuthError::TokenExchange(p) && opt_str_view(p) == error_payload_of(body@)),
            (status == 200 && token_set_present(body@)) ==> (r matches Ok(t) && {
                &&& t.access_token@ == access_token_of(body@)->0
                &&& t.token_type@ == token_type_of(body@)->0
                &&& Some(t.expires_in) == expires_in_of(body@)
                &&& opt_str_view(t.refresh_token) == refresh_token_of(body@)
                &&& opt_str_view(t.id_token) == id_token_of(body@)
                &&& final(self).access_token@ == t.access_token@
            }),
            r matches Err(e) ==> e matches OAuthError::TokenExchange(_) && same_config(
                *final(self),
                *old(self),
            ) && same_flow_state(*final(self), *old(self)),
            r matches Ok(t) ==> {
                &&& status == 200
                &&& t.access_token@.len() > 0
                &&& same_config(*final(self), *old(self))
                &&& final(self).state@ == old(self).state@
                &&& final(self).code_verifier@ == old(self).code_verifier@
                &&& final(self).code_challenge@ == old(self).code_challenge@
                &&& final(self).authorization_code@ == old(self).authorization_code@
            },
    {
        if status != 200 {
            let payload = json_str1(body, "error");
            return Err(OAuthError::TokenExchange(payload));
        }
        let wellformed = json_wellformed(body);
        let access_token_found = if wellformed {
            json_str1(body, "access_token")
        } else {
            None
        };
        let token_type_found = if wellformed {
            json_str1(body, "token_type")
        } else {
            None
        };
        let expires_in_found = if wellformed {
            json_u64_1(body, "expires_in")
        } else {
            None
        };
        let access_token = match access_token_found {
            Some(s) => s,
            None => {
                let payload = json_str1(body, "error");
                return Err(OAuthError::TokenExchange(payload));
            },
        };
        if access_token.as_str().is_empty() {
            let payload = json_str1(body, "error");
            return Err(OAuthError::TokenExchange(payload));
        }
        let token_type = match token_type_found {
            Some(s) => s,
            None => {
                let payload = json_str1(body, "error");
                return Err(OAuthError::TokenExchange(payload));
            },
        };
        let expires_in = match expires_in_found {
            Some(n) => n,
            None => {
                let payload = json_str1(body, "error");
                return Err(OAuthError::TokenExchange(payload));
            },
        };
        let refresh_token = json_str1(body, "refresh_token");
        let id_token = json_str1(body, "id_token");
        self.access_token = access_token.clone();
        Ok(TokenSet { access_token, token_type, expires_in, refresh_token, id_token })
    }

    /// The access token of the last successful exchange, empty before one.
    pub fn get_access_token(&mut self) -> (r: String)
        ensures
            r@ == old(self).access_token@,
            same_config(*final(self), *old(self)),
            same_flow_state(*final(self), *old(self)),
    {
        self.access_token.clone()
    }
}

} // verus!
