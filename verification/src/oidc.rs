//! Provider metadata discovery: the customer-scoped discovery document and
//! the provider's well-known OpenID configuration, each read from an HTTP
//! response handed in as a status code and a body.

use vstd::prelude::*;

use crate::jsonval::json_str1;
use crate::jsonval::nonempty;
use crate::jsonval::json_str2;
use crate::jsonval::json_str3;
use crate::jsonval::json_str1_of;
use crate::jsonval::json_str2_of;
use crate::jsonval::json_str3_of;
use crate::jsonval::json_wellformed;
use crate::jsonval::json_wellformed_of;

verus! {

use vstd::string::StringExecFns;

/// The discovery field whose absence a `DiscoveryError` reports.
#[derive(Debug, Clone, Copy, PartialEq, Eq)]
pub enum DiscoveryField {
    AcrValues,
    OidcDiscoveryEndpoint,
    AuthorizationEndpoint,
    TokenEndpoint,
}

/// A failure of either discovery step: transport, status, malformed JSON,
/// or a required field missing, non-string or empty.
#[derive(Debug, Clone, Copy, PartialEq, Eq)]
pub enum OIDCError {
    /// Network or transport failure; reported by the caller that performs
    /// the request, never by the parsing here.
    Http,
    /// The response status was not 200.
    NotOk,
    /// The response body was not well-formed JSON.
    JsonError,
    /// A required field was missing, not a string, or empty.
    MissingField(DiscoveryField),
}

/// Provider metadata, resolved by two chained discovery responses.
pub struct OIDC {
    pub customer_id: String,
    pub application_id: String,
    pub acr_values: String,
    pub oidc_discovery_endpoint: String,
    pub authorization_endpoint: String,
    pub token_endpoint: String,
}

/// The `clientSettings.acr_values` string of a customer discovery body.
pub open spec fn acr_of(body: Seq<char>) -> Option<Seq<char>> {
    json_str2_of(body, "clientSettings"@, "acr_values"@)
}

/// The `clientSettings.oidcConfiguration.oidc_discovery_endpoint` string
/// of a customer discovery body.
pub open spec fn discovery_endpoint_of(body: Seq<char>) -> Option<Seq<char>> {
    json_str3_of(body, "clientSettings"@, "oidcConfiguration"@, "oidc_discovery_endpoint"@)
}

/// The `authorization_endpoint` string of a well-known configuration body.
pub open spec fn authorization_endpoint_of(body: Seq<char>) -> Option<Seq<char>> {
    json_str1_of(body, "authorization_endpoint"@)
}

/// The `token_endpoint` string of a well-known configuration body.
pub open spec fn token_endpoint_of(body: Seq<char>) -> Option<Seq<char>> {
    json_str1_of(body, "token_endpoint"@)
}

/// Both discovery steps have filled their fields: the flow may proceed only
/// once all four resolved fields are non-empty.
pub open spec fn resolved(m: OIDC) -> bool {
    &&& m.acr_values@.len() > 0
    &&& m.oidc_discovery_endpoint@.len() > 0
    &&& m.authorization_endpoint@.len() > 0
    &&& m.token_endpoint@.len() > 0
}

impl OIDC {
    /// A fresh, unresolved metadata holder for one customer and application.
    pub fn new(customer_id: String, application_id: String) -> (r: Self)
        ensures
            r.customer_id@ == customer_id@,
            r.application_id@ == application_id@,
            r.acr_values@ == Seq::<char>::empty(),
            r.oidc_discovery_endpoint@ == Seq::<char>::empty(),
            r.authorization_endpoint@ == Seq::<char>::empty(),
            r.token_endpoint@ == Seq::<char>::empty(),
    {
        Self {
            customer_id,
            application_id,
            acr_values: String::new(),
            oidc_discovery_endpoint: String::new(),
            authorization_endpoint: String::new(),
            token_endpoint: String::new(),
        }
    }

    /// The customer-scoped discovery URL, templated from the customer id.
    pub fn discovery_url(&self) -> (r: String)
        ensures
            r@ == "https://"@ + self.customer_id@ + ".cloud.com/api/discovery/configurations"@,
    {
        let mut url = "https://".to_owned();
        url.append(self.customer_id.as_str());
        url.append(".cloud.com/api/discovery/configurations");
        url
    }

    /// The provider-scoped well-known OpenID configuration URL. It is a
    /// fixed URL, distinct from the per-customer discovery endpoint.
    pub fn openid_configuration_url() -> (r: String)
        ensures
            r@ == "https://accounts-internal.cloud.com/core/.well-known/openid-configuration"@,
    {
        "https://accounts-internal.cloud.com/core/.well-known/openid-configuration".to_owned()
    }

    /// Reads `clientSettings.acr_values` and
    /// `clientSettings.oidcConfiguration.oidc_discovery_endpoint` out of the
    /// customer discovery response, storing exactly the two strings the body
    /// holds. A non-200 status, malformed JSON, or a field missing,
    /// non-string or empty is the matching error, and errors leave the
    /// metadata untouched.
    pub fn get_oidc_discovery_endpoint(&mut self, status: u16, body: &str) -> (r: Result<
        (),
        OIDCError,
    >)
        ensures
            status != 200 ==> r == Err::<(), OIDCError>(OIDCError::NotOk),
            (status == 200 && !json_wellformed_of(body@)) ==> r == Err::<(), OIDCError>(
                OIDCError::JsonError,
            ),
            (status == 200 && json_wellformed_of(body@) && !nonempty(acr_of(body@))) ==> r
                == Err::<(), OIDCError>(OIDCError::MissingField(DiscoveryField::AcrValues)),
            (status == 200 && json_wellformed_of(body@) && nonempty(acr_of(body@)) && !nonempty(
                discovery_endpoint_of(body@),
            )) ==> r == Err::<(), OIDCError>(
                OIDCError::MissingField(DiscoveryField::OidcDiscoveryEndpoint),
            ),
            (status == 200 && json_wellformed_of(body@) && nonempty(acr_of(body@)) && nonempty(
                discovery_endpoint_of(body@),
            )) ==> {
                &&& r == Ok::<(), OIDCError>(())
                &&& final(self).acr_values@ == acr_of(body@)->0
                &&& final(self).oidc_discovery_endpoint@ == discovery_endpoint_of(body@)->0
            },
            r matches Err(e) ==> e != OIDCError::Http && same_fields(*final(self), *old(self)),
            final(self).customer_id@ == old(self).customer_id@,
            final(self).application_id@ == old(self).application_id@,
            final(self).authorization_endpoint@ == old(self).authorization_endpoint@,
            final(self).token_endpoint@ == old(self).token_endpoint@,
    {
        if status != 200 {
            return Err(OIDCError::NotOk);
        }
        if !json_wellformed(body) {
            return Err(OIDCError::JsonError);
        }
        let acr = match json_str2(body, "clientSettings", "acr_values") {
            Some(s) => s,
            None => {
                return Err(OIDCError::MissingField(DiscoveryField::AcrValues));
            },
        };
        if acr.as_str().is_empty() {
            return Err(OIDCError::MissingField(DiscoveryField::AcrValues));
        }
        let endpoint = match json_str3(
            body,
            "clientSettings",
            "oidcConfiguration",
            "oidc_discovery_endpoint",
        ) {
            Some(s) => s,
            None => {
                return Err(OIDCError::MissingField(DiscoveryField::OidcDiscoveryEndpoint));
            },
        };
        if endpoint.as_str().is_empty() {
            return Err(OIDCError::MissingField(DiscoveryField::OidcDiscoveryEndpoint));
        }
        self.acr_values = acr;
        self.oidc_discovery_endpoint = endpoint;
        Ok(())
    }

    /// Reads `authorization_endpoint` and `token_endpoint` out of the
    /// well-known OpenID configuration response, storing exactly the two
    /// strings the body holds, under the same error rules as the first
    /// step.
    pub fn get_open_id_configuration(&mut self, status: u16, body: &str) -> (r: Result<
        (),
        OIDCError,
    >)
        ensures
            status != 200 ==> r == Err::<(), OIDCError>(OIDCError::NotOk),
            (status == 200 && !json_wellformed_of(body@)) ==> r == Err::<(), OIDCError>(
                OIDCError::JsonError,
            ),
            (status == 200 && json_wellformed_of(body@) && !nonempty(
                authorization_endpoint_of(body@),
            )) ==> r == Err::<(), OIDCError>(
                OIDCError::MissingField(DiscoveryField::AuthorizationEndpoint),
            ),
            (status == 200 && json_wellformed_of(body@) && nonempty(
                authorization_endpoint_of(body@),
            ) && !nonempty(token_endpoint_of(body@))) ==> r == Err::<(), OIDCError>(
                OIDCError::MissingField(DiscoveryField::TokenEndpoint),
            ),
            (status == 200 && json_wellformed_of(body@) && nonempty(
                authorization_endpoint_of(body@),
            ) && nonempty(token_endpoint_of(body@))) ==> {
                &&& r == Ok::<(), OIDCError>(())
                &&& final(self).authorization_endpoint@ == authorization_endpoint_of(body@)->0
                &&& final(self).token_endpoint@ == token_endpoint_of(body@)->0
            },
            r matches Err(e) ==> e != OIDCError::Http && same_fields(*final(self), *old(self)),
            final(self).customer_id@ == old(self).customer_id@,
            final(self).application_id@ == old(self).application_id@,
            final(self).acr_values@ == old(self).acr_values@,
            final(self).oidc_discovery_endpoint@ == old(self).oidc_discovery_endpoint@,
            (r matches Ok(_) && old(self).acr_values@.len() > 0 && old(
                self,
            ).oidc_discovery_endpoint@.len() > 0) ==> resolved(*final(self)),
    {
        if status != 200 {
            return Err(OIDCError::NotOk);
        }
        if !json_wellformed(body) {
            return Err(OIDCError::JsonError);
        }
        let authorization = match json_str1(body, "authorization_endpoint") {
            Some(s) => s,
            None => {
                return Err(OIDCError::MissingField(DiscoveryField::AuthorizationEndpoint));
            },
        };
        if authorization.as_str().is_empty() {
            return Err(OIDCError::MissingField(DiscoveryField::AuthorizationEndpoint));
        }
        let token = match json_str1(body, "token_endpoint") {
            Some(s) => s,
            None => {
                return Err(OIDCError::MissingField(DiscoveryField::TokenEndpoint));
            },
        };
        if token.as_str().is_empty() {
            return Err(OIDCError::MissingField(DiscoveryField::TokenEndpoint));
        }
        self.authorization_endpoint = authorization;
        self.token_endpoint = token;
        Ok(())
    }
}

/// The two metadata values hold the same fields, view for view.
pub open spec fn same_fields(a: OIDC, b: OIDC) -> bool {
    &&& a.customer_id@ == b.customer_id@
    &&& a.application_id@ == b.application_id@
    &&& a.acr_values@ == b.acr_values@
    &&& a.oidc_discovery_endpoint@ == b.oidc_discovery_endpoint@
    &&& a.authorization_endpoint@ == b.authorization_endpoint@
    &&& a.token_endpoint@ == b.token_endpoint@
}

} // verus!
