//! Token acquisition: credential records, the cached bearer token, and the
//! two strategies that obtain one (signed-assertion exchange and
//! instance-metadata fetch).
//!
//! The strategies themselves perform no I/O. A cache miss yields a value
//! describing the one HTTP exchange to perform; the caller carries it out
//! and hands the response body back, and the strategy updates its cache.

use vstd::prelude::*;
use vstd::string::StringExecFns;

verus! {

/// Why a token could not be produced.
#[derive(Debug, Clone, Copy, PartialEq, Eq, Structural)]
pub enum AuthError {
    /// Neither a credentials file nor the managed-compute marker is
    /// available at construction.
    Config,
    /// Network failure or non-success HTTP status during an exchange.
    Transport,
    /// The endpoint returned a body that is not the expected JSON shape.
    MalformedResponse,
    /// The private key could not be used to produce a signed assertion.
    Signing,
}

/// A service account's identity and signing key, loaded once at startup
/// and never mutated afterwards.
#[derive(Debug, Clone, PartialEq)]
pub struct ApplicationCredentials {
    pub cred_type: String,
    pub project_id: String,
    pub private_key_id: String,
    pub private_key: String,
    pub client_email: String,
    pub client_id: String,
    pub auth_uri: String,
    pub token_uri: String,
    pub auth_provider_x509_cert_url: String,
    pub client_x509_cert_url: String,
}

/// The value of a token: an opaque string presented with the `Bearer`
/// scheme in an `authorization` header.
#[derive(Debug, Clone, PartialEq)]
pub enum TokenValue {
    Bearer(String),
}

impl TokenValue {
    /// The header value this token formats to: `Bearer ` followed by the
    /// opaque token string.
    pub open spec fn formatted_spec(&self) -> Seq<char> {
        match self {
            TokenValue::Bearer(t) => "Bearer "@ + t@,
        }
    }

    /// Render the token as an `authorization` header value.
    pub fn formatted(&self) -> (r: String)
        ensures
            r@ == self.formatted_spec(),
    {
        match self {
            TokenValue::Bearer(t) => {
                let mut s = "Bearer ".to_owned();
                s.append(t.as_str());
                s
            },
        }
    }
}

/// A bearer token paired with the absolute instant (Unix seconds, UTC) at
/// which it stops being usable.
#[derive(Debug, Clone, PartialEq)]
pub struct Token {
    pub value: TokenValue,
    pub expiry: i64,
}

impl Token {
    /// A token is usable strictly while its expiry is at or after `now`.
    pub open spec fn usable_at(&self, now: int) -> bool {
        crate::token_usable(self.expiry as int, now)
    }
}

/// The caching policy shared by both strategies: a cached token is
/// answered from the cache, formatted, exactly while it is usable at the
/// current time; otherwise the cache gives nothing and an exchange is due.
pub open spec fn cached_result(cache: Option<Token>, now: int) -> Option<Seq<char>> {
    match cache {
        Some(t) => if t.usable_at(now) {
            Some(t.value.formatted_spec())
        } else {
            None
        },
        None => None,
    }
}

/// The scope string sent on every exchange: the requested scope URIs
/// joined by single spaces.
pub open spec fn joined_scopes(parts: Seq<&str>) -> Seq<char>
    decreases parts.len(),
{
    if parts.len() == 0 {
        Seq::<char>::empty()
    } else if parts.len() == 1 {
        parts[0]@
    } else {
        joined_scopes(parts.drop_last()) + " "@ + parts.last()@
    }
}

/// Join the scope URIs with single spaces.
pub fn join_scopes(scopes: &[&str]) -> (r: String)
    ensures
        r@ == joined_scopes(scopes@),
{
    let mut r = String::new();
    let mut i: usize = 0;
    while i < scopes.len()
        invariant
            i <= scopes@.len(),
            r@ == joined_scopes(scopes@.take(i as int)),
        decreases scopes@.len() - i,
    {
        if i > 0 {
            r.append(" ");
        }
        r.append(scopes[i]);
        proof {
            let prefix = scopes@.take((i + 1) as int);
            assert(prefix.drop_last() =~= scopes@.take(i as int));
            assert(prefix.last() == scopes@[i as int]);
            if i == 0 {
                assert(Seq::<char>::empty() + scopes@[0]@ =~= scopes@[0]@);
            }
        }
        i = i + 1;
    }
    proof {
        assert(scopes@.take(scopes@.len() as int) =~= scopes@);
    }
    r
}

/// The fixed token endpoint that signed assertions are exchanged at.
pub open spec fn auth_endpoint_spec() -> Seq<char> {
    "https://oauth2.googleapis.com/token"@
}

/// The fixed token endpoint that signed assertions are exchanged at.
pub fn auth_endpoint() -> (r: &'static str)
    ensures
        r@ == auth_endpoint_spec(),
{
    "https://oauth2.googleapis.com/token"
}

/// The fixed local metadata-service endpoint that ambient tokens are
/// fetched from.
pub open spec fn metadata_endpoint_spec() -> Seq<char> {
    "http://metadata.google.internal/computeMetadata/v1/instance/service-accounts/default/token"@
}

/// The fixed local metadata-service endpoint that ambient tokens are
/// fetched from.
pub fn metadata_endpoint() -> (r: &'static str)
    ensures
        r@ == metadata_endpoint_spec(),
{
    "http://metadata.google.internal/computeMetadata/v1/instance/service-accounts/default/token"
}

/// The two fields of a token-endpoint response body.
struct AuthResponse {
    access_token: String,
    expires_in: i64,
}

/// What parsing a token-endpoint response body yields: the access token's
/// characters and the advertised lifetime in seconds, or nothing when the
/// body is not a JSON object with a string `access_token` (a present
/// `expires_in` must be an integer; an absent one reads as 0). Parsing is
/// a pure function of the bytes.
pub uninterp spec fn parsed_auth_response(body: Seq<u8>) -> Option<(Seq<char>, i64)>;

/// Relies on serde_json::from_slice and serde_json::Value's accessors:
/// both endpoints answer with a JSON object holding a string
/// `access_token` and an optional integer `expires_in`, and parsing bytes
/// is deterministic.
#[verifier::external_body]
fn parse_auth_response(body: &[u8]) -> (r: Result<AuthResponse, AuthError>)
    ensures
        match r {
            Ok(ar) => parsed_auth_response(body@) == Some((ar.access_token@, ar.expires_in)),
            Err(e) => e == AuthError::MalformedResponse && parsed_auth_response(body@) is None,
        },
{
    let v: serde_json::Value = match serde_json::from_slice(body) {
        Ok(v) => v,
        Err(_) => return Err(AuthError::MalformedResponse),
    };
    let access_token = match v.get("access_token") {
        Some(serde_json::Value::String(s)) => s.clone(),
        _ => return Err(AuthError::MalformedResponse),
    };
    let expires_in = match v.get("expires_in").map(serde_json::Value::as_i64) {
        None => 0,
        Some(Some(n)) => n,
        Some(None) => return Err(AuthError::MalformedResponse),
    };
    Ok(AuthResponse { access_token, expires_in })
}

/// What RS256-signing the assertion claims with the given PEM private key
/// yields. The assertion's header is `{"alg":"RS256","typ":"JWT"}` and its
/// claims are issuer, scope string, audience, expiration and issued-at.
/// RSA PKCS#1 v1.5 signatures and the JSON serialization are both
/// deterministic, so the result is a function of the claims and key alone.
pub uninterp spec fn signed_assertion(
    iss: Seq<char>,
    scope: Seq<char>,
    aud: Seq<char>,
    exp: i64,
    iat: i64,
    key: Seq<char>,
) -> Seq<char>;

/// Relies on frank_jwt::encode with Algorithm::RS256: it serializes the
/// header and claim set, signs them with the PEM-encoded RSA private key,
/// and fails exactly when the key cannot be used for signing.
#[verifier::external_body]
fn sign_assertion(
    iss: &str,
    scope: &str,
    aud: &str,
    exp: i64,
    iat: i64,
    key: &str,
) -> (r: Result<String, AuthError>)
    ensures
        match r {
            Ok(s) => s@ == signed_assertion(iss@, scope@, aud@, exp, iat, key@),
            Err(e) => e == AuthError::Signing,
        },
{
    let mut claims = serde_json::Map::new();
    claims.insert("iss".to_string(), serde_json::Value::from(iss));
    claims.insert("scope".to_string(), serde_json::Value::from(scope));
    claims.insert("aud".to_string(), serde_json::Value::from(aud));
    claims.insert("exp".to_string(), serde_json::Value::from(exp));
    claims.insert("iat".to_string(), serde_json::Value::from(iat));
    let header = serde_json::Value::Object(serde_json::Map::new());
    let payload = serde_json::Value::Object(claims);
    match frank_jwt::encode(header, &key.to_string(), &payload, frank_jwt::Algorithm::RS256) {
        Ok(s) => Ok(s),
        Err(_) => Err(AuthError::Signing),
    }
}

/// The assertion strategy's validity window: 45 minutes, deliberately
/// shorter than the provider's usual 60-minute token lifetime as a margin
/// against clock skew and in-flight latency.
pub const ASSERTION_WINDOW_SECONDS: i64 = 45 * 60;

/// Integer addition clipped to the representable range of `i64`.
pub open spec fn sat_add_i64(a: int, b: int) -> int {
    if a + b > i64::MAX {
        i64::MAX as int
    } else if a + b < i64::MIN {
        i64::MIN as int
    } else {
        a + b
    }
}

/// The one HTTP exchange the assertion strategy asks for on a cache miss:
/// a POST of the form-encoded signed assertion to the token endpoint. The
/// expiry is the locally computed instant the resulting token is cached
/// under.
#[derive(Debug)]
pub struct AssertionRequest {
    pub url: &'static str,
    pub content_type: &'static str,
    pub form_body: String,
    pub expiry: i64,
}

/// The one HTTP exchange the metadata strategy asks for on a cache miss: a
/// GET of the metadata endpoint carrying the required anti-CSRF marker
/// header and the configured scope string.
#[derive(Debug)]
pub struct MetadataRequest {
    pub url: &'static str,
    pub header_name: &'static str,
    pub header_value: &'static str,
    pub scopes: String,
}

/// The body that the assertion exchange posts: the fixed JWT-bearer grant
/// type and the signed assertion, form-encoded.
pub open spec fn form_body_spec(assertion: Seq<char>) -> Seq<char> {
    "grant_type=urn:ietf:params:oauth:grant-type:jwt-bearer&assertion="@ + assertion
}

fn assertion_form_body(assertion: &str) -> (r: String)
    ensures
        r@ == form_body_spec(assertion@),
{
    let mut s = "grant_type=urn:ietf:params:oauth:grant-type:jwt-bearer&assertion=".to_owned();
    s.append(assertion);
    s
}

/// The signed assertion the manager sends for a cache miss at `issued_at`:
/// issuer is the service-account email, audience the fixed token endpoint,
/// expiration the issued-at instant plus the 45-minute window.
pub open spec fn assertion_for(m: TokenManager, issued_at: i64) -> Seq<char> {
    signed_assertion(
        m.creds.client_email@,
        m.scopes@,
        auth_endpoint_spec(),
        (issued_at + ASSERTION_WINDOW_SECONDS) as i64,
        issued_at,
        m.creds.private_key@,
    )
}

/// A successful refresh of the assertion strategy at `issued_at` with
/// access token `tok`: configuration untouched, cache overwritten with the
/// token, expiring exactly 45 minutes past issuance.
pub open spec fn assertion_refreshed(
    before: TokenManager,
    after: TokenManager,
    issued_at: i64,
    tok: Seq<char>,
) -> bool {
    &&& after.creds == before.creds
    &&& after.scopes == before.scopes
    &&& match after.current_token {
        Some(t) => match t.value {
            TokenValue::Bearer(a) => a@ == tok && t.expiry == issued_at + ASSERTION_WINDOW_SECONDS,
        },
        None => false,
    }
}

/// A successful refresh of the metadata strategy at `now` with access
/// token `tok` and server-reported lifetime `expires_in`: configuration
/// untouched, cache overwritten with the token, expiring at `now` plus the
/// reported lifetime (clipped to the representable range).
pub open spec fn metadata_refreshed(
    before: MetadataManager,
    after: MetadataManager,
    now: i64,
    tok: Seq<char>,
    expires_in: i64,
) -> bool {
    &&& after.scopes == before.scopes
    &&& match after.current_token {
        Some(t) => match t.value {
            TokenValue::Bearer(a) => a@ == tok && t.expiry as int == sat_add_i64(
                now as int,
                expires_in as int,
            ),
        },
        None => false,
    }
}

/// The assertion-exchange strategy: trades a locally signed, time-boxed
/// claim set for a bearer token. Used when explicit service-account
/// credentials are supplied.
#[derive(Debug, Clone)]
pub struct TokenManager {
    pub creds: ApplicationCredentials,
    pub scopes: String,
    pub current_token: Option<Token>,
}

impl TokenManager {
    /// A fresh manager: configuration stored, scope URIs joined with
    /// spaces, no token cached yet.
    pub fn new(creds: ApplicationCredentials, scopes: &[&str]) -> (r: TokenManager)
        ensures
            r.creds == creds,
            r.scopes@ == joined_scopes(scopes@),
            r.current_token is None,
    {
        TokenManager { creds, scopes: join_scopes(scopes), current_token: None }
    }

    /// The caching fast path: the cached token's header value, exactly
    /// while the cached token is usable at `now`.
    pub fn cached_token(&self, now: i64) -> (r: Option<String>)
        ensures
            match r {
                Some(s) => cached_result(self.current_token, now as int) == Some(s@),
                None => cached_result(self.current_token, now as int) is None,
            },
    {
        match &self.current_token {
            Some(t) => if t.expiry >= now {
                Some(t.value.formatted())
            } else {
                None
            },
            None => None,
        }
    }

    /// Build the exchange for a cache miss at `issued_at`: sign the
    /// assertion and form-encode it for the token endpoint. Fails exactly
    /// when signing fails; the cache is not touched either way.
    pub fn token_request(&self, issued_at: i64) -> (r: Result<AssertionRequest, AuthError>)
        requires
            issued_at + ASSERTION_WINDOW_SECONDS <= i64::MAX,
        ensures
            match r {
                Ok(req) => {
                    &&& req.url@ == auth_endpoint_spec()
                    &&& req.content_type@ == "application/x-www-form-urlencoded"@
                    &&& req.form_body@ == form_body_spec(assertion_for(*self, issued_at))
                    &&& req.expiry == issued_at + ASSERTION_WINDOW_SECONDS
                },
                Err(e) => e == AuthError::Signing,
            },
    {
        let expiry = issued_at + ASSERTION_WINDOW_SECONDS;
        match sign_assertion(
            self.creds.client_email.as_str(),
            self.scopes.as_str(),
            auth_endpoint(),
            expiry,
            issued_at,
            self.creds.private_key.as_str(),
        ) {
            Ok(assertion) => Ok(
                AssertionRequest {
                    url: auth_endpoint(),
                    content_type: "application/x-www-form-urlencoded",
                    form_body: assertion_form_body(assertion.as_str()),
                    expiry,
                },
            ),
            Err(e) => Err(e),
        }
    }

    /// Digest the exchange's response body. On the expected JSON shape the
    /// cache is overwritten with the new token, expiring exactly 45
    /// minutes past `issued_at` — the server-reported lifetime is
    /// deliberately ignored here — and its header value is returned. On a
    /// malformed body the call fails and the manager is left exactly as it
    /// was.
    pub fn complete_exchange(&mut self, issued_at: i64, body: &[u8]) -> (r: Result<
        String,
        AuthError,
    >)
        requires
            issued_at + ASSERTION_WINDOW_SECONDS <= i64::MAX,
        ensures
            match r {
                Ok(s) => match parsed_auth_response(body@) {
                    Some(p) => assertion_refreshed(*old(self), *final(self), issued_at, p.0)
                        && s@ == "Bearer "@ + p.0,
                    None => false,
                },
                Err(e) => {
                    &&& e == AuthError::MalformedResponse
                    &&& parsed_auth_response(body@) is None
                    &&& *final(self) == *old(self)
                },
            },
    {
        match parse_auth_response(body) {
            Ok(ar) => {
                let value = TokenValue::Bearer(ar.access_token);
                let formatted = value.formatted();
                let expiry = issued_at + ASSERTION_WINDOW_SECONDS;
                self.current_token = Some(Token { value, expiry });
                Ok(formatted)
            },
            Err(e) => Err(e),
        }
    }
}

/// The instance-metadata strategy: fetches ambient identity tokens from
/// the local metadata service, for code running inside the cloud's own
/// compute fabric.
#[derive(Debug, Clone)]
pub struct MetadataManager {
    pub scopes: String,
    pub current_token: Option<Token>,
}

impl MetadataManager {
    /// A fresh manager: scope URIs joined with spaces, no token cached
    /// yet.
    pub fn new(scopes: &[&str]) -> (r: MetadataManager)
        ensures
            r.scopes@ == joined_scopes(scopes@),
            r.current_token is None,
    {
        MetadataManager { scopes: join_scopes(scopes), current_token: None }
    }

    /// The caching fast path: the cached token's header value, exactly
    /// while the cached token is usable at `now`.
    pub fn cached_token(&self, now: i64) -> (r: Option<String>)
        ensures
            match r {
                Some(s) => cached_result(self.current_token, now as int) == Some(s@),
                None => cached_result(self.current_token, now as int) is None,
            },
    {
        match &self.current_token {
            Some(t) => if t.expiry >= now {
                Some(t.value.formatted())
            } else {
                None
            },
            None => None,
        }
    }

    /// The exchange for a cache miss: the fixed metadata endpoint, the
    /// required `Metadata-Flavor: Google` marker, and the configured scope
    /// string.
    pub fn token_request(&self) -> (r: MetadataRequest)
        ensures
            r.url@ == metadata_endpoint_spec(),
            r.header_name@ == "Metadata-Flavor"@,
            r.header_value@ == "Google"@,
            r.scopes@ == self.scopes@,
    {
        MetadataRequest {
            url: metadata_endpoint(),
            header_name: "Metadata-Flavor",
            header_value: "Google",
            scopes: self.scopes.clone(),
        }
    }

    /// Digest the exchange's response body. On the expected JSON shape the
    /// cache is overwritten with the new token, expiring at `now` plus the
    /// server-reported lifetime — here the server value is authoritative —
    /// and its header value is returned. On a malformed body the call
    /// fails and the manager is left exactly as it was.
    pub fn complete_exchange(&mut self, now: i64, body: &[u8]) -> (r: Result<String, AuthError>)
        ensures
            match r {
                Ok(s) => match parsed_auth_response(body@) {
                    Some(p) => metadata_refreshed(*old(self), *final(self), now, p.0, p.1)
                        && s@ == "Bearer "@ + p.0,
                    None => false,
                },
                Err(e) => {
                    &&& e == AuthError::MalformedResponse
                    &&& parsed_auth_response(body@) is None
                    &&& *final(self) == *old(self)
                },
            },
    {
        match parse_auth_response(body) {
            Ok(ar) => {
                let expiry = match now.checked_add(ar.expires_in) {
                    Some(x) => x,
                    None => if ar.expires_in >= 0 {
                        i64::MAX
                    } else {
                        i64::MIN
                    },
                };
                let value = TokenValue::Bearer(ar.access_token);
                let formatted = value.formatted();
                self.current_token = Some(Token { value, expiry });
                Ok(formatted)
            },
            Err(e) => Err(e),
        }
    }
}

/// The token provider a client is constructed with: exactly one of the two
/// strategies, chosen once and fixed for the client's lifetime.
#[derive(Debug, Clone)]
pub enum TokenProvider {
    Assertion(TokenManager),
    Metadata(MetadataManager),
}

/// What one `token()` decision asks of its caller: hand back the cached
/// header value as is, or carry out the described exchange and feed the
/// response body to `complete_token`.
#[derive(Debug)]
pub enum TokenStep {
    Cached(String),
    PostAssertion(AssertionRequest),
    FetchMetadata(MetadataRequest),
}

impl TokenProvider {
    /// The provider's cached token, whichever strategy holds it.
    pub open spec fn cache(&self) -> Option<Token> {
        match self {
            TokenProvider::Assertion(m) => m.current_token,
            TokenProvider::Metadata(m) => m.current_token,
        }
    }

    /// The provider's configured scope string.
    pub open spec fn scopes_spec(&self) -> Seq<char> {
        match self {
            TokenProvider::Assertion(m) => m.scopes@,
            TokenProvider::Metadata(m) => m.scopes@,
        }
    }

    /// Strategy selection at client construction. Supplied credentials win;
    /// otherwise the managed-compute marker selects the metadata strategy;
    /// with neither there is no way to obtain tokens and construction
    /// fails.
    pub fn new(
        creds: Option<ApplicationCredentials>,
        metadata_available: bool,
        scopes: &[&str],
    ) -> (r: Result<TokenProvider, AuthError>)
        ensures
            match r {
                Ok(p) => {
                    &&& p.cache() is None
                    &&& p.scopes_spec() == joined_scopes(scopes@)
                    &&& match creds {
                        Some(c) => match p {
                            TokenProvider::Assertion(m) => m.creds == c,
                            TokenProvider::Metadata(_) => false,
                        },
                        None => metadata_available && (p matches TokenProvider::Metadata(_)),
                    }
                },
                Err(e) => e == AuthError::Config && creds is None && !metadata_available,
            },
    {
        match creds {
            Some(c) => Ok(TokenProvider::Assertion(TokenManager::new(c, scopes))),
            None => if metadata_available {
                Ok(TokenProvider::Metadata(MetadataManager::new(scopes)))
            } else {
                Err(AuthError::Config)
            },
        }
    }

    /// One `token()` decision at clock reading `now`: answered from the
    /// cache exactly while the cached token is usable, and otherwise the
    /// one exchange to perform — fully described, with the assertion
    /// already signed where that strategy is in play. Fails exactly when
    /// signing fails. The provider itself is not changed by deciding.
    pub fn begin_token(&self, now: i64) -> (r: Result<TokenStep, AuthError>)
        requires
            now + ASSERTION_WINDOW_SECONDS <= i64::MAX,
        ensures
            match r {
                Ok(step) => match step {
                    TokenStep::Cached(s) => cached_result(self.cache(), now as int) == Some(s@),
                    TokenStep::PostAssertion(req) => match self {
                        TokenProvider::Assertion(m) => {
                            &&& cached_result(m.current_token, now as int) is None
                            &&& req.url@ == auth_endpoint_spec()
                            &&& req.content_type@ == "application/x-www-form-urlencoded"@
                            &&& req.form_body@ == form_body_spec(assertion_for(*m, now))
                            &&& req.expiry == now + ASSERTION_WINDOW_SECONDS
                        },
                        TokenProvider::Metadata(_) => false,
                    },
                    TokenStep::FetchMetadata(req) => match self {
                        TokenProvider::Metadata(m) => {
                            &&& cached_result(m.current_token, now as int) is None
                            &&& req.url@ == metadata_endpoint_spec()
                            &&& req.header_name@ == "Metadata-Flavor"@
                            &&& req.header_value@ == "Google"@
                            &&& req.scopes@ == m.scopes@
                        },
                        TokenProvider::Assertion(_) => false,
                    },
                },
                Err(e) => {
                    &&& e == AuthError::Signing
                    &&& self matches TokenProvider::Assertion(_)
                    &&& cached_result(self.cache(), now as int) is None
                },
            },
    {
        match self {
            TokenProvider::Assertion(m) => match m.cached_token(now) {
                Some(s) => Ok(TokenStep::Cached(s)),
                None => match m.token_request(now) {
                    Ok(req) => Ok(TokenStep::PostAssertion(req)),
                    Err(e) => Err(e),
                },
            },
            TokenProvider::Metadata(m) => match m.cached_token(now) {
                Some(s) => Ok(TokenStep::Cached(s)),
                None => Ok(TokenStep::FetchMetadata(m.token_request())),
            },
        }
    }

    /// A successful completion of an exchange begun at `issued_at` and
    /// answered at `now` with token `tok` and server-reported lifetime
    /// `expires_in`: the strategy is unchanged, its configuration kept, and
    /// its cache overwritten under that strategy's own expiry rule.
    pub open spec fn refreshed(
        before: TokenProvider,
        after: TokenProvider,
        issued_at: i64,
        now: i64,
        tok: Seq<char>,
        expires_in: i64,
    ) -> bool {
        match (before, after) {
            (TokenProvider::Assertion(b), TokenProvider::Assertion(a)) => assertion_refreshed(
                b,
                a,
                issued_at,
                tok,
            ),
            (TokenProvider::Metadata(b), TokenProvider::Metadata(a)) => metadata_refreshed(
                b,
                a,
                now,
                tok,
                expires_in,
            ),
            _ => false,
        }
    }

    /// Digest the body of the exchange that `begin_token` asked for, begun
    /// at clock reading `issued_at` and answered at clock reading `now`.
    /// On the expected JSON shape the cache is overwritten under the
    /// strategy's expiry rule and the new header value returned; on a
    /// malformed body the call fails and the provider is left exactly as
    /// it was.
    pub fn complete_token(&mut self, issued_at: i64, now: i64, body: &[u8]) -> (r: Result<
        String,
        AuthError,
    >)
        requires
            issued_at + ASSERTION_WINDOW_SECONDS <= i64::MAX,
        ensures
            match r {
                Ok(s) => match parsed_auth_response(body@) {
                    Some(p) => Self::refreshed(*old(self), *final(self), issued_at, now, p.0, p.1)
                        && s@ == "Bearer "@ + p.0,
                    None => false,
                },
                Err(e) => {
                    &&& e == AuthError::MalformedResponse
                    &&& parsed_auth_response(body@) is None
                    &&& *final(self) == *old(self)
                },
            },
    {
        match self {
            TokenProvider::Assertion(m) => m.complete_exchange(issued_at, body),
            TokenProvider::Metadata(m) => m.complete_exchange(now, body),
        }
    }
}

/// Law: while the clock reads at or before the cached token's expiry, every
/// call is answered from the cache — no exchange is asked for — and the
/// answer is the same string every time.
pub proof fn lemma_no_refresh_while_usable(t: Token, n1: int, n2: int)
    requires
        t.usable_at(n1),
        t.usable_at(n2),
    ensures
        cached_result(Some(t), n1) == Some(t.value.formatted_spec()),
        cached_result(Some(t), n1) == cached_result(Some(t), n2),
{
}

/// Law: a refresh completed by the assertion strategy after its cached
/// token expired installs a strictly later expiry.
pub proof fn lemma_assertion_refresh_advances_expiry(
    before: TokenManager,
    after: TokenManager,
    t_old: Token,
    issued_at: i64,
    tok: Seq<char>,
)
    requires
        before.current_token == Some(t_old),
        !t_old.usable_at(issued_at as int),
        assertion_refreshed(before, after, issued_at, tok),
    ensures
        after.current_token matches Some(t_new) && t_new.expiry > t_old.expiry,
{
}

/// Law: a refresh completed by the metadata strategy after its cached
/// token expired, with a nonnegative server-reported lifetime, installs a
/// strictly later expiry.
pub proof fn lemma_metadata_refresh_advances_expiry(
    before: MetadataManager,
    after: MetadataManager,
    t_old: Token,
    now: i64,
    tok: Seq<char>,
    expires_in: i64,
)
    requires
        before.current_token == Some(t_old),
        !t_old.usable_at(now as int),
        metadata_refreshed(before, after, now, tok, expires_in),
        expires_in >= 0,
    ensures
        after.current_token matches Some(t_new) && t_new.expiry > t_old.expiry,
{
}

/// Law: the assertion strategy's computed expiry is the issuance instant
/// plus exactly 45 minutes — the server-reported lifetime plays no part in
/// it.
pub proof fn lemma_assertion_expiry_fixed(
    before: TokenManager,
    after: TokenManager,
    issued_at: i64,
    tok: Seq<char>,
)
    requires
        assertion_refreshed(before, after, issued_at, tok),
    ensures
        after.current_token matches Some(t) && t.expiry == issued_at + ASSERTION_WINDOW_SECONDS,
{
}

/// Law: the metadata strategy's computed expiry is the completion instant
/// plus exactly the server-reported lifetime, whenever that sum is
/// representable.
pub proof fn lemma_metadata_expiry_from_server(
    before: MetadataManager,
    after: MetadataManager,
    now: i64,
    tok: Seq<char>,
    expires_in: i64,
)
    requires
        metadata_refreshed(before, after, now, tok, expires_in),
        i64::MIN <= now + expires_in <= i64::MAX,
    ensures
        after.current_token matches Some(t) && t.expiry == now + expires_in,
{
}

} // verus!
