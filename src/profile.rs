use vstd::prelude::*;

verus! {

/// Where the identity provider lives and how this service is registered with it.
#[derive(Clone, Debug)]
pub struct OAuthConfig {
    pub endpoint: String,
    pub client_id: String,
    pub client_secret: String,
}

/// The body of a login request.
#[derive(Clone, Debug)]
pub struct LoginPayload {
    pub code: String,
    pub redirect_uri: String,
}

/// The form posted to the provider to trade an authorization code for an access token.
#[derive(Clone, Debug)]
pub struct TokenRequest {
    pub client_id: String,
    pub client_secret: String,
    pub redirect_uri: String,
    pub code: String,
}

/// What the discovery endpoint tells a client about the provider.
#[derive(Clone, Debug)]
pub struct DiscoveryInfo {
    pub vatsim_endpoint: String,
    pub client_id: String,
}

/// A rating as the provider reports it.
#[derive(Clone, Debug)]
pub struct Rating {
    pub id: i64,
    pub short: String,
    pub long: String,
}

/// A region, division or subdivision; the provider may leave either part out.
#[derive(Clone, Debug)]
pub struct Area {
    pub id: Option<String>,
    pub name: Option<String>,
}

/// The provider's view of a member, as fetched from its user-info endpoint.
#[derive(Clone, Debug)]
pub struct ProviderProfile {
    pub cid: String,
    pub name_first: String,
    pub name_last: String,
    pub name_full: String,
    pub rating: Rating,
    pub pilot_rating: Rating,
    pub region: Area,
    pub division: Area,
    pub subdivision: Area,
}

impl OAuthConfig {
    pub fn token_url(&self) -> (r: String)
        ensures
            r@ == self.endpoint@ + "/oauth/token"@,
    {
        self.endpoint.clone().concat("/oauth/token")
    }

    pub fn user_url(&self) -> (r: String)
        ensures
            r@ == self.endpoint@ + "/api/user"@,
    {
        self.endpoint.clone().concat("/api/user")
    }

    pub fn discovery(&self) -> (r: DiscoveryInfo)
        ensures
            r.vatsim_endpoint == self.endpoint,
            r.client_id == self.client_id,
    {
        DiscoveryInfo { vatsim_endpoint: self.endpoint.clone(), client_id: self.client_id.clone() }
    }

    pub open spec fn token_request_spec(&self, p: LoginPayload) -> TokenRequest {
        TokenRequest {
            client_id: self.client_id,
            client_secret: self.client_secret,
            redirect_uri: p.redirect_uri,
            code: p.code,
        }
    }

    /// The exchange form for a login: this service's credentials and the client's code.
    pub fn token_request(&self, p: LoginPayload) -> (r: TokenRequest)
        ensures
            r == self.token_request_spec(p),
    {
        TokenRequest {
            client_id: self.client_id.clone(),
            client_secret: self.client_secret.clone(),
            redirect_uri: p.redirect_uri,
            code: p.code,
        }
    }
}

impl TokenRequest {
    pub fn grant_type(&self) -> (r: String)
        ensures
            r@ == "authorization_code"@,
    {
        String::from_str("authorization_code")
    }
}

} // verus!
