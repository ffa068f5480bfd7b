//! The client: its environment, its settings and token, the builder that
//! makes it, and the decisions of its HTTP and streaming layers.
//!
//! The network I/O itself (sending requests, reading a stream) is done by the
//! caller, which feeds what happened back into the step functions here.
use vstd::prelude::*;
use crate::error::Error;
use crate::text::{concat_text, decimal, opt_view, push_decimal};
use crate::token::{refreshed_token, RefreshedToken, Token};

verus! {

/// Selects which TradeStation API environment a [`Client`] should use.
///
/// - [`ClientEnvironment::Live`] uses real TradeStation accounts and can place
///   real orders.
/// - [`ClientEnvironment::Simulation`] uses TradeStation's SIM API for paper
///   trading with simulated accounts and simulated fills.
/// - [`ClientEnvironment::Mock`] is intended for local mock tests, CI, and
///   other flows that should not require or expose live credentials.
#[derive(Clone, Debug)]
pub enum ClientEnvironment {
    /// The live TradeStation API environment: `https://api.tradestation.com/v3`.
    Live,
    /// The TradeStation simulator environment: `https://sim-api.tradestation.com/v3`.
    Simulation,
    /// A local mock testing environment, served at the given URL.
    Mock(String),
}

/// The base URL of an environment.
pub open spec fn environment_base_url(e: ClientEnvironment) -> Seq<char> {
    match e {
        ClientEnvironment::Live => "https://api.tradestation.com/v3"@,
        ClientEnvironment::Simulation => "https://sim-api.tradestation.com/v3"@,
        ClientEnvironment::Mock(url) => url@,
    }
}

/// The short, human readable name of an environment.
pub open spec fn environment_label(e: ClientEnvironment) -> Seq<char> {
    match e {
        ClientEnvironment::Live => "LIVE"@,
        ClientEnvironment::Simulation => "SIM"@,
        ClientEnvironment::Mock(_) => "MOCK"@,
    }
}

/// The URL that a request to `endpoint` goes to in an environment.
pub open spec fn request_url_text(e: ClientEnvironment, endpoint: Seq<char>) -> Seq<char> {
    environment_base_url(e) + "/"@ + endpoint
}

impl ClientEnvironment {
    /// Returns the base URL associated with the environment.
    ///
    /// Live and simulation environments use TradeStation's standard API URLs.
    /// Mock environments return the custom URL provided when the environment
    /// was created.
    pub fn base_url(&self) -> (r: &str)
        ensures
            r@ == environment_base_url(*self),
    {
        match self {
            ClientEnvironment::Live => "https://api.tradestation.com/v3",
            ClientEnvironment::Simulation => "https://sim-api.tradestation.com/v3",
            ClientEnvironment::Mock(url) => url.as_str(),
        }
    }

    /// The environment as a short, human readable string: `LIVE`, `SIM` or `MOCK`.
    pub fn to_string(&self) -> (r: String)
        ensures
            r@ == environment_label(*self),
    {
        match self {
            ClientEnvironment::Live => String::from_str("LIVE"),
            ClientEnvironment::Simulation => String::from_str("SIM"),
            ClientEnvironment::Mock(_) => String::from_str("MOCK"),
        }
    }

    /// The full URL of a request to `endpoint`: the base URL, a slash, the endpoint.
    pub fn request_url(&self, endpoint: &str) -> (r: String)
        ensures
            r@ == request_url_text(*self, endpoint@),
    {
        let mut out = concat_text(self.base_url(), "/");
        out.append(endpoint);
        out
    }
}

/// The views of a list of name and value pairs.
pub open spec fn pair_views(v: Seq<(String, String)>) -> Seq<(Seq<char>, Seq<char>)> {
    v.map_values(|p: (String, String)| (p.0@, p.1@))
}

/// TradeStation API client: the credentials, the token and the environment
/// that every request is made with.
#[derive(Clone, Debug)]
pub struct Client {
    client_id: String,
    client_secret: String,
    /// Bearer Token for TradeStation's API.
    pub token: Token,
    redirect_uri: String,
    /// The API environment this client is configured to use.
    pub environment: ClientEnvironment,
}

/// The plain values of a [`Client`].
pub struct ClientView {
    pub client_id: Seq<char>,
    pub client_secret: Seq<char>,
    pub token: Token,
    pub redirect_uri: Seq<char>,
    pub environment: ClientEnvironment,
}

impl View for Client {
    type V = ClientView;

    closed spec fn view(&self) -> ClientView {
        ClientView {
            client_id: self.client_id@,
            client_secret: self.client_secret@,
            token: self.token,
            redirect_uri: self.redirect_uri@,
            environment: self.environment,
        }
    }
}

/// The form that refreshes a client's access token.
pub open spec fn refresh_form_pairs(c: ClientView) -> Seq<(Seq<char>, Seq<char>)> {
    seq![
        ("grant_type"@, "refresh_token"@),
        ("client_id"@, c.client_id),
        ("client_secret"@, c.client_secret),
        ("refresh_token"@, c.token.refresh_token@),
        ("redirect_uri"@, c.redirect_uri),
    ]
}

/// The address of TradeStation's OAuth token endpoint, where codes are
/// exchanged for tokens and tokens are refreshed.
pub fn token_url() -> (r: &'static str)
    ensures
        r@ == "https://signin.tradestation.com/oauth/token"@,
{
    "https://signin.tradestation.com/oauth/token"
}

impl Client {
    /// The full URL of a request to `endpoint` in this client's environment.
    pub fn request_url(&self, endpoint: &str) -> (r: String)
        ensures
            r@ == request_url_text(self@.environment, endpoint@),
    {
        self.environment.request_url(endpoint)
    }

    /// The value of the `Authorization` header: `Bearer` and the access token.
    pub fn authorization_header(&self) -> (r: String)
        ensures
            r@ == "Bearer "@ + self@.token.access_token@,
    {
        concat_text("Bearer ", self.token.access_token.as_str())
    }

    /// The form sent to the token endpoint to refresh the access token.
    pub fn refresh_form(&self) -> (r: Vec<(String, String)>)
        ensures
            pair_views(r@) == refresh_form_pairs(self@),
    {
        let mut form: Vec<(String, String)> = Vec::new();
        form.push((String::from_str("grant_type"), String::from_str("refresh_token")));
        form.push((String::from_str("client_id"), self.client_id.clone()));
        form.push((String::from_str("client_secret"), self.client_secret.clone()));
        form.push((String::from_str("refresh_token"), self.token.refresh_token.clone()));
        form.push((String::from_str("redirect_uri"), self.redirect_uri.clone()));
        assert(pair_views(form@) =~= refresh_form_pairs(self@));
        form
    }

    /// Take in the reply to a refresh: the client keeps everything but its
    /// token, which is refreshed.
    pub fn apply_refresh(&mut self, new_token: RefreshedToken)
        ensures
            final(self)@ == (ClientView {
                token: refreshed_token(old(self)@.token, new_token),
                ..old(self)@
            }),
    {
        self.token = self.token.refreshed(new_token);
    }
}

/// A refresh never changes what the next refresh sends: the form carries the
/// client's credentials, redirect URI and refresh token, and a refresh keeps
/// them all; only the access token (and what comes with it) changes.
pub proof fn law_refresh_form_survives_refresh(c: ClientView, new_token: RefreshedToken)
    ensures
        refresh_form_pairs(ClientView { token: refreshed_token(c.token, new_token), ..c })
            == refresh_form_pairs(c),
{
}

} // verus!

verus! {

/// Initial builder state before the API environment has been selected.
#[derive(Debug, Default)]
pub struct Configure;

/// Builder state after the API environment has been selected.
#[derive(Debug, Default)]
pub struct Configured;

/// Authorization flow state.
#[derive(Debug, Default)]
pub struct Authorize;

/// Final builder state with a token available.
#[derive(Debug, Default)]
pub struct Ready;

/// The steps of building a [`Client`]; the type parameter enforces at compile
/// time the order in which the steps are taken.
#[derive(Debug)]
pub struct ClientBuilderStep<CurrentStep> {
    current_step: std::marker::PhantomData<CurrentStep>,
    client_id: Option<String>,
    client_secret: Option<String>,
    redirect_uri: Option<String>,
    audience: Option<String>,
    scopes: Vec<String>,
    environment: Option<ClientEnvironment>,
    base_url: String,
    token: Option<Token>,
}

/// The plain values of a [`ClientBuilderStep`]: what has been set so far.
pub struct ClientBuilderView {
    pub client_id: Option<Seq<char>>,
    pub client_secret: Option<Seq<char>>,
    pub redirect_uri: Option<Seq<char>>,
    pub audience: Option<Seq<char>>,
    pub scopes: Seq<Seq<char>>,
    pub environment: Option<ClientEnvironment>,
    pub base_url: Seq<char>,
    pub token: Option<Token>,
}

impl<CurrentStep> View for ClientBuilderStep<CurrentStep> {
    type V = ClientBuilderView;

    closed spec fn view(&self) -> ClientBuilderView {
        ClientBuilderView {
            client_id: opt_view(self.client_id),
            client_secret: opt_view(self.client_secret),
            redirect_uri: opt_view(self.redirect_uri),
            audience: opt_view(self.audience),
            scopes: crate::text::string_views(self.scopes@),
            environment: self.environment,
            base_url: self.base_url@,
            token: self.token,
        }
    }
}

/// A builder with nothing set.
pub open spec fn empty_builder() -> ClientBuilderView {
    ClientBuilderView {
        client_id: None,
        client_secret: None,
        redirect_uri: None,
        audience: None,
        scopes: Seq::empty(),
        environment: None,
        base_url: Seq::empty(),
        token: None,
    }
}

/// Builder for [`Client`].
#[derive(Debug, Default)]
pub struct ClientBuilder;

impl ClientBuilder {
    /// Instantiate a new builder, with nothing set.
    #[allow(clippy::new_ret_no_self)]
    pub fn new() -> (r: ClientBuilderStep<Configure>)
        ensures
            r@ == empty_builder(),
    {
        let r = ClientBuilderStep {
            current_step: std::marker::PhantomData::<Configure>,
            client_id: None,
            client_secret: None,
            redirect_uri: None,
            audience: None,
            scopes: Vec::new(),
            environment: None,
            base_url: String::new(),
            token: None,
        };
        assert(r@.scopes =~= Seq::<Seq<char>>::empty());
        r
    }
}

impl ClientBuilderStep<Configure> {
    /// Set the API key and secret.
    pub fn credentials(self, client_id: &str, client_secret: &str) -> (r: Self)
        ensures
            r@ == (ClientBuilderView {
                client_id: Some(client_id@),
                client_secret: Some(client_secret@),
                ..self@
            }),
    {
        ClientBuilderStep {
            client_id: Some(String::from_str(client_id)),
            client_secret: Some(String::from_str(client_secret)),
            ..self
        }
    }

    /// Set the redirect URI.
    pub fn redirect_uri(self, uri: &str) -> (r: Self)
        ensures
            r@ == (ClientBuilderView { redirect_uri: Some(uri@), ..self@ }),
    {
        ClientBuilderStep { redirect_uri: Some(String::from_str(uri)), ..self }
    }

    /// Set the audience. Defaults to `https://api.tradestation.com` if omitted.
    pub fn audience(self, aud: &str) -> (r: Self)
        ensures
            r@ == (ClientBuilderView { audience: Some(aud@), ..self@ }),
    {
        ClientBuilderStep { audience: Some(String::from_str(aud)), ..self }
    }

    /// Set the desired scopes for the [`Client`] to be authorized for.
    pub fn scopes(self, scopes: Vec<String>) -> (r: Self)
        ensures
            r@ == (ClientBuilderView { scopes: crate::text::string_views(scopes@), ..self@ }),
    {
        ClientBuilderStep { scopes: scopes, ..self }
    }

    /// Set the environment for the client to run in.
    pub fn environment(self, environment: ClientEnvironment) -> (r: ClientBuilderStep<Configured>)
        ensures
            r@ == (ClientBuilderView {
                environment: Some(environment),
                base_url: environment_base_url(environment),
                ..self@
            }),
    {
        let base_url = String::from_str(environment.base_url());
        ClientBuilderStep {
            current_step: std::marker::PhantomData::<Configured>,
            client_id: self.client_id,
            client_secret: self.client_secret,
            redirect_uri: self.redirect_uri,
            audience: self.audience,
            scopes: self.scopes,
            environment: Some(environment),
            base_url: base_url,
            token: self.token,
        }
    }
}

impl ClientBuilderStep<Configured> {
    /// Set the [`Token`] for the [`Client`] to use, skipping the authorize
    /// redirect flow.
    pub fn with_token(self, token: Token) -> (r: ClientBuilderStep<Ready>)
        ensures
            r@ == (ClientBuilderView { token: Some(token), ..self@ }),
    {
        ClientBuilderStep {
            current_step: std::marker::PhantomData::<Ready>,
            client_id: self.client_id,
            client_secret: self.client_secret,
            redirect_uri: self.redirect_uri,
            audience: self.audience,
            scopes: self.scopes,
            environment: self.environment,
            base_url: self.base_url,
            token: Some(token),
        }
    }

    /// Start the authorization phase; the configuration is frozen from here on.
    pub fn start_authorization(self) -> (r: ClientBuilderStep<Authorize>)
        ensures
            r@ == self@,
    {
        ClientBuilderStep {
            current_step: std::marker::PhantomData::<Authorize>,
            client_id: self.client_id,
            client_secret: self.client_secret,
            redirect_uri: self.redirect_uri,
            audience: self.audience,
            scopes: self.scopes,
            environment: self.environment,
            base_url: self.base_url,
            token: self.token,
        }
    }
}

} // verus!

verus! {

/// Whether `e` is a token configuration error with the message `msg`.
pub open spec fn token_config_error(e: Error, msg: Seq<char>) -> bool {
    e matches Error::TokenConfig(m) && m@ == msg
}

/// The address of TradeStation's OAuth authorize page.
pub open spec fn authorize_page() -> Seq<char> {
    "https://signin.tradestation.com/authorize"@
}

/// The audience asked for when none was set.
pub open spec fn default_audience() -> Seq<char> {
    "https://api.tradestation.com"@
}

/// The scopes asked for when none were set.
pub open spec fn default_scope() -> Seq<char> {
    "openid offline_access profile MarketData ReadAccount Trade"@
}

/// The `scope` parameter: the scopes separated by spaces, or the default
/// scopes when none were set.
pub open spec fn scope_text(scopes: Seq<Seq<char>>) -> Seq<char> {
    if scopes.len() == 0 {
        default_scope()
    } else {
        crate::text::join(scopes, " "@)
    }
}

/// The query of the authorize page, for a builder with a client id and a
/// redirect URI.
pub open spec fn authorization_pairs(b: ClientBuilderView, state: Seq<char>) -> Seq<(Seq<char>, Seq<char>)> {
    seq![
        ("response_type"@, "code"@),
        ("client_id"@, b.client_id->0),
        ("redirect_uri"@, b.redirect_uri->0),
        ("audience"@, match b.audience { Some(a) => a, None => default_audience() }),
        ("scope"@, scope_text(b.scopes)),
        ("state"@, state),
    ]
}

/// The form that exchanges an authorization code for a token, for a builder
/// with a client id, a client secret and a redirect URI.
pub open spec fn exchange_form_pairs(b: ClientBuilderView, code: Seq<char>) -> Seq<(Seq<char>, Seq<char>)> {
    seq![
        ("grant_type"@, "authorization_code"@),
        ("client_id"@, b.client_id->0),
        ("client_secret"@, b.client_secret->0),
        ("code"@, code),
        ("redirect_uri"@, b.redirect_uri->0),
    ]
}

/// What the url crate makes of `base` with the name and value pairs appended
/// to its query (`Url::parse`, then `query_pairs_mut().extend_pairs`, then the
/// serialized URL); `None` where `base` does not parse.
pub uninterp spec fn url_with_query_pairs(base: Seq<char>, pairs: Seq<(Seq<char>, Seq<char>)>) -> Option<Seq<char>>;

/// Calls `url::Url::parse` on `base`, appends the pairs with
/// `query_pairs_mut().extend_pairs` and returns the serialized URL. The
/// contract names the result `url_with_query_pairs` of the base and the pairs;
/// the url crate's parsing and percent-encoding are not restated.
#[verifier::external_body]
fn url_with_query(base: &str, pairs: &Vec<(String, String)>) -> (r: Option<String>)
    ensures
        opt_view(r) == url_with_query_pairs(base@, pair_views(pairs@)),
{
    match url::Url::parse(base) {
        Ok(mut url) => {
            url.query_pairs_mut().extend_pairs(pairs.iter());
            Some(String::from(url.as_str()))
        },
        Err(_) => None,
    }
}

/// Turn the outcome of a URL construction into the library's result:
/// the URL, or [`Error::InvalidUrl`].
pub fn url_outcome(url: Option<String>) -> (r: Result<String, Error>)
    ensures
        match url {
            Some(u) => r matches Ok(s) && s@ == u@,
            None => r matches Err(Error::InvalidUrl),
        },
{
    match url {
        Some(u) => Ok(u),
        None => Err(Error::InvalidUrl),
    }
}

impl ClientBuilderStep<Authorize> {
    /// The query parameters of the TradeStation `/authorize` URL.
    pub fn authorization_query_pairs(&self, state: &str) -> (r: Result<Vec<(String, String)>, Error>)
        ensures
            self@.client_id is None ==> (r matches Err(e) && token_config_error(e, "client_id not set"@)),
            self@.client_id is Some && self@.redirect_uri is None ==> (r matches Err(e)
                && token_config_error(e, "redirect_uri not set"@)),
            self@.client_id is Some && self@.redirect_uri is Some ==> (r matches Ok(v)
                && pair_views(v@) == authorization_pairs(self@, state@)),
    {
        let client_id = match &self.client_id {
            Some(id) => id.clone(),
            None => {
                return Err(Error::TokenConfig(String::from_str("client_id not set")));
            },
        };
        let redirect = match &self.redirect_uri {
            Some(uri) => uri.clone(),
            None => {
                return Err(Error::TokenConfig(String::from_str("redirect_uri not set")));
            },
        };
        let audience = match &self.audience {
            Some(aud) => aud.clone(),
            None => String::from_str("https://api.tradestation.com"),
        };
        let scope = if self.scopes.len() == 0 {
            String::from_str("openid offline_access profile MarketData ReadAccount Trade")
        } else {
            crate::text::join_strings(&self.scopes, " ")
        };
        let mut pairs: Vec<(String, String)> = Vec::new();
        pairs.push((String::from_str("response_type"), String::from_str("code")));
        pairs.push((String::from_str("client_id"), client_id));
        pairs.push((String::from_str("redirect_uri"), redirect));
        pairs.push((String::from_str("audience"), audience));
        pairs.push((String::from_str("scope"), scope));
        pairs.push((String::from_str("state"), String::from_str(state)));
        assert(pair_views(pairs@) =~= authorization_pairs(self@, state@));
        Ok(pairs)
    }

    /// Build the TradeStation `/authorize` URL.
    pub fn authorization_url(&self, state: &str) -> (r: Result<String, Error>)
        ensures
            self@.client_id is None ==> (r matches Err(e) && token_config_error(e, "client_id not set"@)),
            self@.client_id is Some && self@.redirect_uri is None ==> (r matches Err(e)
                && token_config_error(e, "redirect_uri not set"@)),
            self@.client_id is Some && self@.redirect_uri is Some ==> match url_with_query_pairs(
                authorize_page(),
                authorization_pairs(self@, state@),
            ) {
                Some(u) => r matches Ok(s) && s@ == u,
                None => r matches Err(Error::InvalidUrl),
            },
    {
        let pairs = match self.authorization_query_pairs(state) {
            Ok(pairs) => pairs,
            Err(e) => {
                return Err(e);
            },
        };
        let url = url_with_query("https://signin.tradestation.com/authorize", &pairs);
        url_outcome(url)
    }

    /// The form that exchanges the `code` from the authorize redirect for a
    /// [`Token`] at the token endpoint.
    pub fn exchange_code_form(&self, code: &str) -> (r: Result<Vec<(String, String)>, Error>)
        ensures
            self@.client_id is None ==> (r matches Err(e) && token_config_error(e, "client_id not set"@)),
            self@.client_id is Some && self@.client_secret is None ==> (r matches Err(e)
                && token_config_error(e, "client_secret not set"@)),
            self@.client_id is Some && self@.client_secret is Some && self@.redirect_uri is None
                ==> (r matches Err(e) && token_config_error(e, "redirect_uri not set"@)),
            self@.client_id is Some && self@.client_secret is Some && self@.redirect_uri is Some
                ==> (r matches Ok(v) && pair_views(v@) == exchange_form_pairs(self@, code@)),
    {
        let client_id = match &self.client_id {
            Some(id) => id.clone(),
            None => {
                return Err(Error::TokenConfig(String::from_str("client_id not set")));
            },
        };
        let client_secret = match &self.client_secret {
            Some(secret) => secret.clone(),
            None => {
                return Err(Error::TokenConfig(String::from_str("client_secret not set")));
            },
        };
        let redirect = match &self.redirect_uri {
            Some(uri) => uri.clone(),
            None => {
                return Err(Error::TokenConfig(String::from_str("redirect_uri not set")));
            },
        };
        let mut form: Vec<(String, String)> = Vec::new();
        form.push((String::from_str("grant_type"), String::from_str("authorization_code")));
        form.push((String::from_str("client_id"), client_id));
        form.push((String::from_str("client_secret"), client_secret));
        form.push((String::from_str("code"), String::from_str(code)));
        form.push((String::from_str("redirect_uri"), redirect));
        assert(pair_views(form@) =~= exchange_form_pairs(self@, code@));
        Ok(form)
    }

    /// Set the [`Token`] for the [`Client`] to use: the token that the code
    /// exchange gave, or one stored earlier.
    pub fn with_token(self, token: Token) -> (r: ClientBuilderStep<Ready>)
        ensures
            r@ == (ClientBuilderView { token: Some(token), ..self@ }),
    {
        ClientBuilderStep {
            current_step: std::marker::PhantomData::<Ready>,
            client_id: self.client_id,
            client_secret: self.client_secret,
            redirect_uri: self.redirect_uri,
            audience: self.audience,
            scopes: self.scopes,
            environment: self.environment,
            base_url: self.base_url,
            token: Some(token),
        }
    }
}

/// The redirect URI of a client whose builder set none.
pub open spec fn default_redirect_uri() -> Seq<char> {
    "http://localhost:8080/"@
}

/// The client that a builder with an environment and a token makes: an unset
/// client id or secret is empty, an unset redirect URI takes its default.
pub open spec fn built_client(b: ClientBuilderView) -> ClientView {
    ClientView {
        client_id: match b.client_id { Some(s) => s, None => Seq::empty() },
        client_secret: match b.client_secret { Some(s) => s, None => Seq::empty() },
        token: b.token->0,
        redirect_uri: match b.redirect_uri { Some(s) => s, None => default_redirect_uri() },
        environment: b.environment->0,
    }
}

/// Whether a client carries what was set on its builder: the environment
/// and the token as they were set, the credentials and the redirect URI as
/// set, an unset credential empty and an unset redirect URI the default one.
pub open spec fn client_keeps_builder_values(b: ClientBuilderView, c: ClientView) -> bool {
    &&& b.environment == Some(c.environment)
    &&& b.token == Some(c.token)
    &&& (b.client_id matches Some(id) ==> c.client_id == id)
    &&& (b.client_id is None ==> c.client_id == Seq::<char>::empty())
    &&& (b.client_secret matches Some(secret) ==> c.client_secret == secret)
    &&& (b.client_secret is None ==> c.client_secret == Seq::<char>::empty())
    &&& (b.redirect_uri matches Some(uri) ==> c.redirect_uri == uri)
    &&& (b.redirect_uri is None ==> c.redirect_uri == "http://localhost:8080/"@)
}

/// A client built from a builder carries what was set on it; the authorize
/// query names the client, the redirect URI, the audience and scopes (set or
/// default) and the state; the code exchange form carries the credentials,
/// the code and the redirect URI; the refresh form carries the credentials,
/// the refresh token and the redirect URI.
pub proof fn law_client_flows_carry_their_values(b: ClientBuilderView, state: Seq<char>, code: Seq<char>, c: ClientView)
    ensures
        (b.environment is Some && b.token is Some) ==> client_keeps_builder_values(b, built_client(b)),
        b.client_id matches Some(id) ==> (b.redirect_uri matches Some(uri) ==> {
            let p = authorization_pairs(b, state);
            &&& p.contains(("response_type"@, "code"@))
            &&& p.contains(("client_id"@, id))
            &&& p.contains(("redirect_uri"@, uri))
            &&& p.contains(("state"@, state))
            &&& p.contains(("audience"@, match b.audience {
                Some(a) => a,
                None => "https://api.tradestation.com"@,
            }))
            &&& p.contains(("scope"@, if b.scopes.len() == 0 {
                "openid offline_access profile MarketData ReadAccount Trade"@
            } else {
                crate::text::join(b.scopes, " "@)
            }))
        }),
        b.client_id matches Some(id) ==> (b.client_secret matches Some(secret) ==> (
            b.redirect_uri matches Some(uri) ==> {
                let f = exchange_form_pairs(b, code);
                &&& f.contains(("grant_type"@, "authorization_code"@))
                &&& f.contains(("client_id"@, id))
                &&& f.contains(("client_secret"@, secret))
                &&& f.contains(("code"@, code))
                &&& f.contains(("redirect_uri"@, uri))
            })),
        ({
            let f = refresh_form_pairs(c);
            &&& f.contains(("grant_type"@, "refresh_token"@))
            &&& f.contains(("client_id"@, c.client_id))
            &&& f.contains(("client_secret"@, c.client_secret))
            &&& f.contains(("refresh_token"@, c.token.refresh_token@))
            &&& f.contains(("redirect_uri"@, c.redirect_uri))
        }),
{
    let p = authorization_pairs(b, state);
    assert(p[0] == ("response_type"@, "code"@));
    assert(p[1] == ("client_id"@, b.client_id->0));
    assert(p[2] == ("redirect_uri"@, b.redirect_uri->0));
    assert(p[3] == ("audience"@, match b.audience { Some(a) => a, None => default_audience() }));
    assert(p[4] == ("scope"@, scope_text(b.scopes)));
    assert(p[5] == ("state"@, state));
    let f = exchange_form_pairs(b, code);
    assert(f[0] == ("grant_type"@, "authorization_code"@));
    assert(f[1] == ("client_id"@, b.client_id->0));
    assert(f[2] == ("client_secret"@, b.client_secret->0));
    assert(f[3] == ("code"@, code));
    assert(f[4] == ("redirect_uri"@, b.redirect_uri->0));
    let g = refresh_form_pairs(c);
    assert(g[0] == ("grant_type"@, "refresh_token"@));
    assert(g[1] == ("client_id"@, c.client_id));
    assert(g[2] == ("client_secret"@, c.client_secret));
    assert(g[3] == ("refresh_token"@, c.token.refresh_token@));
    assert(g[4] == ("redirect_uri"@, c.redirect_uri));
}

/// A builder that went through `environment` and then `with_token` always
/// builds: the client has that environment and that token, whatever else
/// was set or left unset.
pub proof fn law_configured_builder_builds(b: ClientBuilderView, env: ClientEnvironment, token: Token)
    ensures
        ({
            let configured = ClientBuilderView {
                environment: Some(env),
                base_url: environment_base_url(env),
                ..b
            };
            let ready = ClientBuilderView { token: Some(token), ..configured };
            &&& ready.environment is Some
            &&& ready.token is Some
            &&& built_client(ready).environment == env
            &&& built_client(ready).token == token
        }),
{
}

impl ClientBuilderStep<Ready> {
    /// Finish building into a [`Client`].
    pub fn build(self) -> (r: Result<Client, Error>)
        ensures
            self@.environment is None ==> r matches Err(Error::EnvironmentNotSet),
            self@.environment is Some && self@.token is None ==> (r matches Err(e)
                && token_config_error(e, "no token: use exchange_code() or with_token()"@)),
            self@.environment is Some && self@.token is Some ==> (r matches Ok(c)
                && c@ == built_client(self@)),
            r matches Ok(c) ==> client_keeps_builder_values(self@, c@),
    {
        let environment = match self.environment {
            Some(env) => env,
            None => {
                return Err(Error::EnvironmentNotSet);
            },
        };
        let token = match self.token {
            Some(t) => t,
            None => {
                return Err(
                    Error::TokenConfig(
                        String::from_str("no token: use exchange_code() or with_token()"),
                    ),
                );
            },
        };
        let client_id = match self.client_id {
            Some(s) => s,
            None => String::new(),
        };
        let client_secret = match self.client_secret {
            Some(s) => s,
            None => String::new(),
        };
        let redirect_uri = match self.redirect_uri {
            Some(s) => s,
            None => String::from_str("http://localhost:8080/"),
        };
        Ok(Client { client_id, client_secret, token, redirect_uri, environment })
    }
}

} // verus!

verus! {

/// The HTTP status that means the access token was refused.
pub open spec fn unauthorized_status() -> u16 {
    401
}

/// Where a request stands: sent for the first time, waiting for a token
/// refresh after a 401 reply, sent again with the new token, or finished.
#[derive(Clone, Copy, Debug, PartialEq, Eq, Structural)]
pub enum RequestPhase {
    /// The request was sent with the current access token.
    FirstAttempt,
    /// The first reply was 401; the token is being refreshed.
    Refreshing,
    /// The request was sent again with the refreshed token.
    Retry,
    /// The request is done.
    Finished,
}

/// What happened to the last thing the caller did for a request.
#[derive(Debug)]
pub enum RequestEvent {
    /// A reply arrived with this HTTP status.
    Responded(u16),
    /// The request could not be sent or no reply arrived; the error's text.
    SendFailed(String),
    /// The token was refreshed.
    Refreshed,
    /// Refreshing the token failed with this error.
    RefreshFailed(Error),
}

/// What the caller does next for a request.
#[derive(Debug)]
pub enum RequestAction {
    /// Send the request with the current access token.
    Send,
    /// Refresh the access token.
    RefreshToken,
    /// Hand the last reply to the caller of the request.
    Deliver,
    /// Fail the request with this error.
    Fail(Error),
}

/// Whether a request in `phase` waits for `event`: a sent request waits for
/// a reply or a failure to send, a refresh for its outcome.
pub open spec fn awaits(phase: RequestPhase, event: RequestEvent) -> bool {
    match phase {
        RequestPhase::FirstAttempt | RequestPhase::Retry => event is Responded || event is SendFailed,
        RequestPhase::Refreshing => event is Refreshed || event is RefreshFailed,
        RequestPhase::Finished => false,
    }
}

/// The next phase and action of a request in `phase` after `event`: a 401
/// reply to the first attempt refreshes the token and retries once; every
/// other reply is delivered as it is; a failure to send fails with
/// [`Error::Request`], a failed refresh with its own error.
pub open spec fn request_step(phase: RequestPhase, event: RequestEvent) -> (RequestPhase, RequestAction) {
    match event {
        RequestEvent::Responded(status) => {
            if phase == RequestPhase::FirstAttempt && status == unauthorized_status() {
                (RequestPhase::Refreshing, RequestAction::RefreshToken)
            } else {
                (RequestPhase::Finished, RequestAction::Deliver)
            }
        },
        RequestEvent::SendFailed(m) => (RequestPhase::Finished, RequestAction::Fail(Error::Request(m))),
        RequestEvent::Refreshed => (RequestPhase::Retry, RequestAction::Send),
        RequestEvent::RefreshFailed(e) => (RequestPhase::Finished, RequestAction::Fail(e)),
    }
}

/// Whether a request in `phase` waits for `event`: what a caller checks
/// before handing the event to [`next_request_step`].
pub fn awaits_event(phase: RequestPhase, event: &RequestEvent) -> (r: bool)
    ensures
        r == awaits(phase, *event),
{
    match phase {
        RequestPhase::FirstAttempt | RequestPhase::Retry => match event {
            RequestEvent::Responded(_) | RequestEvent::SendFailed(_) => true,
            _ => false,
        },
        RequestPhase::Refreshing => match event {
            RequestEvent::Refreshed | RequestEvent::RefreshFailed(_) => true,
            _ => false,
        },
        RequestPhase::Finished => false,
    }
}

/// How to begin a request: send it with the current access token.
pub fn start_request() -> (r: (RequestPhase, RequestAction))
    ensures
        r.0 == RequestPhase::FirstAttempt,
        r.1 is Send,
{
    (RequestPhase::FirstAttempt, RequestAction::Send)
}

/// The next phase and action of a request after `event`.
pub fn next_request_step(phase: RequestPhase, event: RequestEvent) -> (r: (RequestPhase, RequestAction))
    requires
        awaits(phase, event),
    ensures
        r == request_step(phase, event),
{
    match event {
        RequestEvent::Responded(status) => {
            if phase == RequestPhase::FirstAttempt && status == 401 {
                (RequestPhase::Refreshing, RequestAction::RefreshToken)
            } else {
                (RequestPhase::Finished, RequestAction::Deliver)
            }
        },
        RequestEvent::SendFailed(m) => (RequestPhase::Finished, RequestAction::Fail(Error::Request(m))),
        RequestEvent::Refreshed => (RequestPhase::Retry, RequestAction::Send),
        RequestEvent::RefreshFailed(e) => (RequestPhase::Finished, RequestAction::Fail(e)),
    }
}

/// The actions that a request takes after its first send, when the events
/// arrive in this order; events after the request finished, or that the
/// request did not wait for, are not taken in.
pub open spec fn request_run(phase: RequestPhase, events: Seq<RequestEvent>) -> Seq<RequestAction>
    decreases events.len(),
{
    if events.len() == 0 || !awaits(phase, events[0]) {
        Seq::empty()
    } else {
        let (next, action) = request_step(phase, events[0]);
        seq![action] + request_run(next, events.drop_first())
    }
}

/// How many of the actions are token refreshes.
pub open spec fn refresh_count(actions: Seq<RequestAction>) -> nat
    decreases actions.len(),
{
    if actions.len() == 0 {
        0
    } else {
        (if actions.last() is RefreshToken { 1nat } else { 0nat }) + refresh_count(actions.drop_last())
    }
}

/// How many of the actions send the request again.
pub open spec fn resend_count(actions: Seq<RequestAction>) -> nat
    decreases actions.len(),
{
    if actions.len() == 0 {
        0
    } else {
        (if actions.last() is Send { 1nat } else { 0nat }) + resend_count(actions.drop_last())
    }
}

proof fn lemma_counts_of_short_runs(a: Seq<RequestAction>)
    requires
        a.len() <= 3,
    ensures
        a.len() == 0 ==> refresh_count(a) == 0 && resend_count(a) == 0,
        a.len() == 1 ==> refresh_count(a) == (if a[0] is RefreshToken { 1nat } else { 0nat })
            && resend_count(a) == (if a[0] is Send { 1nat } else { 0nat }),
{
    if a.len() == 1 {
        assert(a.last() == a[0]);
        assert(refresh_count(a.drop_last()) == 0);
        assert(resend_count(a.drop_last()) == 0);
    }
}

/// A request refreshes the token at most once and is sent again at most
/// once, whatever the replies: after the first send, the only run that does
/// either is a 401 reply, a refresh, and one more send; the run then ends
/// with the next reply or failure.
pub proof fn law_request_retries_at_most_once(events: Seq<RequestEvent>)
    ensures
        request_run(RequestPhase::FirstAttempt, events).len() <= 3,
        refresh_count(request_run(RequestPhase::FirstAttempt, events)) <= 1,
        resend_count(request_run(RequestPhase::FirstAttempt, events)) <= 1,
        refresh_count(request_run(RequestPhase::FirstAttempt, events)) == 1 ==> (
            events[0] matches RequestEvent::Responded(s) && s == unauthorized_status()),
{
    reveal_with_fuel(request_run, 4);
    let run = request_run(RequestPhase::FirstAttempt, events);
    if events.len() == 0 || !awaits(RequestPhase::FirstAttempt, events[0]) {
        assert(run.len() == 0);
        lemma_counts_of_short_runs(run);
    } else {
        let (p1, a1) = request_step(RequestPhase::FirstAttempt, events[0]);
        let e1 = events.drop_first();
        let tail1 = request_run(p1, e1);
        assert(run == seq![a1] + tail1);
        if p1 == RequestPhase::Finished {
            assert(tail1.len() == 0);
            assert(run =~= seq![a1]);
            lemma_counts_of_short_runs(run);
        } else {
            // the first reply was 401: a refresh follows
            assert(p1 == RequestPhase::Refreshing);
            assert(a1 is RefreshToken);
            if e1.len() == 0 || !awaits(p1, e1[0]) {
                assert(tail1.len() == 0);
                assert(run =~= seq![a1]);
                lemma_counts_of_short_runs(run);
            } else {
                let (p2, a2) = request_step(p1, e1[0]);
                let e2 = e1.drop_first();
                let tail2 = request_run(p2, e2);
                assert(tail1 == seq![a2] + tail2);
                if p2 == RequestPhase::Finished {
                    assert(tail2.len() == 0);
                    assert(run =~= seq![a1, a2]);
                    assert(!(a2 is Send) && !(a2 is RefreshToken));
                    assert(run.last() == a2);
                    assert(run.drop_last() =~= seq![a1]);
                    lemma_counts_of_short_runs(run.drop_last());
                    assert(refresh_count(run) == refresh_count(run.drop_last()));
                    assert(resend_count(run) == resend_count(run.drop_last()));
                } else {
                    assert(p2 == RequestPhase::Retry);
                    assert(a2 is Send);
                    if e2.len() == 0 || !awaits(p2, e2[0]) {
                        assert(tail2.len() == 0);
                        assert(run =~= seq![a1, a2]);
                        assert(run.last() == a2);
                        assert(run.drop_last() =~= seq![a1]);
                        lemma_counts_of_short_runs(run.drop_last());
                        assert(refresh_count(run) == refresh_count(run.drop_last()));
                        assert(resend_count(run) == 1 + resend_count(run.drop_last()));
                    } else {
                        let (p3, a3) = request_step(p2, e2[0]);
                        let e3 = e2.drop_first();
                        assert(p3 == RequestPhase::Finished);
                        assert(request_run(p3, e3).len() == 0);
                        assert(tail2 =~= seq![a3]);
                        assert(run =~= seq![a1, a2, a3]);
                        assert(!(a3 is Send) && !(a3 is RefreshToken));
                        assert(run.last() == a3);
                        assert(run.drop_last() =~= seq![a1, a2]);
                        assert(run.drop_last().last() == a2);
                        assert(run.drop_last().drop_last() =~= seq![a1]);
                        lemma_counts_of_short_runs(run.drop_last().drop_last());
                        assert(refresh_count(run.drop_last()) == refresh_count(run.drop_last().drop_last()));
                        assert(resend_count(run.drop_last()) == 1 + resend_count(run.drop_last().drop_last()));
                        assert(refresh_count(run) == refresh_count(run.drop_last()));
                        assert(resend_count(run) == resend_count(run.drop_last()));
                    }
                }
            }
        }
    }
}

} // verus!

verus! {

/// The reason phrase that `http::StatusCode::canonical_reason` gives for a
/// status code, `None` for a code without one.
pub uninterp spec fn canonical_reason(code: u16) -> Option<Seq<char>>;

/// Calls `reqwest::StatusCode::from_u16` and then `canonical_reason`. The
/// contract names the result `canonical_reason` of the code; the table of
/// reason phrases is not restated.
#[verifier::external_body]
fn status_reason(code: u16) -> (r: Option<String>)
    requires
        100 <= code <= 999,
    ensures
        opt_view(r) == canonical_reason(code),
{
    match reqwest::StatusCode::from_u16(code) {
        Ok(status) => status.canonical_reason().map(String::from),
        Err(_) => None,
    }
}

/// How a status code is written: the number, a space and the reason phrase,
/// or `<unknown status code>` for a code without one.
pub open spec fn status_text_with(code: u16, reason: Option<Seq<char>>) -> Seq<char> {
    decimal(code as nat) + " "@ + match reason {
        Some(r) => r,
        None => "<unknown status code>"@,
    }
}

/// How a status code is written, with its canonical reason phrase.
pub open spec fn status_text(code: u16) -> Seq<char> {
    status_text_with(code, canonical_reason(code))
}

/// Write a status code with the given reason phrase.
pub fn status_display_with(code: u16, reason: Option<String>) -> (r: String)
    ensures
        r@ == status_text_with(code, opt_view(reason)),
{
    let mut out = String::new();
    push_decimal(&mut out, code as u64);
    out.append(" ");
    match reason {
        Some(text) => out.append(text.as_str()),
        None => out.append("<unknown status code>"),
    }
    assert(out@ =~= status_text_with(code, opt_view(reason)));
    out
}

/// Write a status code as HTTP statuses are displayed: `401 Unauthorized`.
pub fn status_display(code: u16) -> (r: String)
    requires
        100 <= code <= 999,
    ensures
        r@ == status_text(code),
{
    let reason = status_reason(code);
    status_display_with(code, reason)
}

/// Whether a status code reports success (200 to 299).
pub open spec fn is_success_status(code: u16) -> bool {
    200 <= code < 300
}

/// Whether a stream may be read after its request was answered with
/// `status`: yes on success; otherwise the stream fails with a
/// [`Error::StreamIssue`] that names the status.
pub fn stream_open_outcome(status: u16) -> (r: Result<(), Error>)
    requires
        100 <= status <= 999,
    ensures
        is_success_status(status) ==> r is Ok,
        !is_success_status(status) ==> (r matches Err(Error::StreamIssue(m))
            && m@ == "Request failed with status: "@ + status_text(status)),
{
    if 200 <= status && status < 300 {
        Ok(())
    } else {
        let text = status_display(status);
        Err(Error::StreamIssue(concat_text("Request failed with status: ", text.as_str())))
    }
}

/// Whether a character has the Unicode `White_Space` property: tab to
/// carriage return, space, next line, no-break space, ogham space mark, the
/// spaces U+2000 to U+200A, the line and paragraph separators, narrow no-break
/// space, medium mathematical space and ideographic space.
pub open spec fn is_white_space(c: char) -> bool {
    let n = c as u32;
    (0x9 <= n && n <= 0xD) || n == 0x20 || n == 0x85 || n == 0xA0 || n == 0x1680
        || (0x2000 <= n && n <= 0x200A) || n == 0x2028 || n == 0x2029 || n == 0x202F
        || n == 0x205F || n == 0x3000
}

/// The text without its leading whitespace.
pub open spec fn trim_start_ws(s: Seq<char>) -> Seq<char>
    decreases s.len(),
{
    if s.len() > 0 && is_white_space(s[0]) {
        trim_start_ws(s.drop_first())
    } else {
        s
    }
}

/// The text without its trailing whitespace.
pub open spec fn trim_end_ws(s: Seq<char>) -> Seq<char>
    decreases s.len(),
{
    if s.len() > 0 && is_white_space(s.last()) {
        trim_end_ws(s.drop_last())
    } else {
        s
    }
}

/// What `str::trim` returns for a string: the string without its leading
/// and trailing `White_Space` characters.
pub open spec fn trimmed(s: Seq<char>) -> Seq<char> {
    trim_end_ws(trim_start_ws(s))
}

/// Calls `str::trim`, which removes the leading and trailing characters that
/// have the Unicode `White_Space` property; the contract states that as `trimmed`.
#[verifier::external_body]
fn trim(s: &str) -> (r: &str)
    ensures
        r@ == trimmed(s@),
{
    s.trim()
}

/// What happened while reading a stream of newline delimited JSON.
#[derive(Debug)]
pub enum StreamEvent {
    /// A line was read.
    LineRead(String),
    /// Reading failed; the error's text.
    ReadFailed(String),
    /// The server closed the stream.
    Ended,
    /// A line did not decode into the expected JSON value; the error's text.
    DecodeFailed(String),
    /// The decoded value was handed to the caller's callback, which answered this.
    Handled(Result<(), Error>),
}

/// What to do next while reading a stream.
#[derive(Debug)]
pub enum StreamAction {
    /// Read the next line.
    ReadLine,
    /// Decode this text as JSON and hand the value to the callback.
    Decode(String),
    /// Stop reading, with this result.
    Finish(Result<(), Error>),
}

/// What to do next after `event` while reading a stream into a callback:
/// blank lines are skipped and other lines decoded without their surrounding
/// whitespace; a read error ends the stream with [`Error::StreamIssue`], a
/// decode error with [`Error::Json`]; the end of the stream ends it well; a
/// callback that answers [`Error::StopStream`] ends it well too, any other
/// error of the callback ends it with that error.
pub fn next_stream_action(event: StreamEvent) -> (r: StreamAction)
    ensures
        match event {
            StreamEvent::LineRead(line) => if trimmed(line@).len() == 0 {
                r is ReadLine
            } else {
                r matches StreamAction::Decode(t) && t@ == trimmed(line@)
            },
            StreamEvent::ReadFailed(m) => r matches StreamAction::Finish(Err(Error::StreamIssue(x))) && x == m,
            StreamEvent::Ended => r matches StreamAction::Finish(Ok(())),
            StreamEvent::DecodeFailed(m) => r matches StreamAction::Finish(Err(Error::Json(x))) && x == m,
            StreamEvent::Handled(Ok(())) => r is ReadLine,
            StreamEvent::Handled(Err(e)) => if e is StopStream {
                r matches StreamAction::Finish(Ok(()))
            } else {
                r matches StreamAction::Finish(Err(x)) && x == e
            },
        },
        r matches StreamAction::Finish(Err(e)) ==> !(e is StopStream),
{
    match event {
        StreamEvent::LineRead(line) => {
            let text = trim(line.as_str());
            if text.unicode_len() == 0 {
                StreamAction::ReadLine
            } else {
                StreamAction::Decode(String::from_str(text))
            }
        },
        StreamEvent::ReadFailed(m) => StreamAction::Finish(Err(Error::StreamIssue(m))),
        StreamEvent::Ended => StreamAction::Finish(Ok(())),
        StreamEvent::DecodeFailed(m) => StreamAction::Finish(Err(Error::Json(m))),
        StreamEvent::Handled(Ok(())) => StreamAction::ReadLine,
        StreamEvent::Handled(Err(e)) => {
            if e.is_stop_stream() {
                StreamAction::Finish(Ok(()))
            } else {
                StreamAction::Finish(Err(e))
            }
        },
    }
}

/// Keep the item of a stream message once the caller's callback has taken
/// it: the collected items grow by the message's item, if it has one, when
/// the callback answered `Ok`; the callback's answer is passed on.
pub fn collect_handled<T>(collected: &mut Vec<T>, answer: Result<(), Error>, item: Option<T>) -> (r: Result<(), Error>)
    ensures
        r == answer,
        answer is Ok && item is Some ==> final(collected)@ == old(collected)@.push(item->0),
        !(answer is Ok && item is Some) ==> final(collected)@ == old(collected)@,
{
    if answer.is_ok() {
        match item {
            Some(t) => collected.push(t),
            None => {},
        }
    }
    answer
}

} // verus!
