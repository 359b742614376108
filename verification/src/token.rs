//! The bearer token: when a cached one may be used again, and how a new one
//! is asked for and taken in.

use vstd::prelude::*;
use vstd::string::*;
use crate::error::GatewayError;

verus! {

/// A point in time: whole seconds since the Unix epoch and the nanoseconds
/// into that second.
#[derive(Debug, Clone, Copy, PartialEq, Eq)]
pub struct Instant {
    pub secs: i64,
    pub nanos: u32,
}

impl Instant {
    /// `self` comes strictly before `other`.
    pub open spec fn precedes(self, other: Instant) -> bool {
        self.secs < other.secs || (self.secs == other.secs && self.nanos < other.nanos)
    }

    /// Whether `self` comes strictly before `other`.
    pub fn is_before(&self, other: &Instant) -> (b: bool)
        ensures
            b == self.precedes(*other),
    {
        self.secs < other.secs || (self.secs == other.secs && self.nanos < other.nanos)
    }
}

/// Whether `chrono::DateTime::from_timestamp` has a date for the second
/// `secs` of Unix time.
pub uninterp spec fn representable(secs: i64) -> bool;

/// `chrono::Utc::now`, read back with `DateTime::timestamp` and
/// `DateTime::timestamp_subsec_nanos`. Nothing is claimed of the reading.
/// chrono does not return where the system clock stands before 1970.
#[verifier::external_body]
fn utc_now() -> (reading: Instant) {
    let now = chrono::Utc::now();
    Instant { secs: now.timestamp(), nanos: now.timestamp_subsec_nanos() }
}

/// `chrono::DateTime::from_timestamp` with no nanoseconds, read back with
/// `DateTime::timestamp` and `DateTime::timestamp_subsec_nanos`. A second that
/// the calendar holds comes back unchanged; any other gives `None`.
#[verifier::external_body]
fn instant_at(secs: i64) -> (at: Option<Instant>)
    ensures
        at == (if representable(secs) {
            Some(Instant { secs, nanos: 0 })
        } else {
            None
        }),
{
    chrono::DateTime::from_timestamp(secs, 0).map(
        |t| Instant { secs: t.timestamp(), nanos: t.timestamp_subsec_nanos() },
    )
}

/// A bearer token and the instant from which it is no longer valid.
#[derive(Debug, Clone, PartialEq, Eq)]
pub struct AccessToken {
    pub value: String,
    pub expires_at: Instant,
}

/// Mathematical model of an [`AccessToken`].
pub struct AccessTokenView {
    pub value: Seq<char>,
    pub expires_at: Instant,
}

impl AccessTokenView {
    /// A token is valid strictly before its expiry, with no margin.
    pub open spec fn valid_at(self, now: Instant) -> bool {
        now.precedes(self.expires_at)
    }
}

impl View for AccessToken {
    type V = AccessTokenView;

    open spec fn view(&self) -> AccessTokenView {
        AccessTokenView { value: self.value@, expires_at: self.expires_at }
    }
}

/// What a caller in need of a token has to do.
#[derive(Debug, Clone, PartialEq, Eq)]
pub enum TokenDecision {
    /// Use this cached token.
    Reuse(String),
    /// Ask the identity endpoint for a new token.
    Exchange,
}

/// Mathematical model of a [`TokenDecision`].
pub enum TokenDecisionView {
    Reuse(Seq<char>),
    Exchange,
}

impl View for TokenDecision {
    type V = TokenDecisionView;

    open spec fn view(&self) -> TokenDecisionView {
        match self {
            TokenDecision::Reuse(value) => TokenDecisionView::Reuse(value@),
            TokenDecision::Exchange => TokenDecisionView::Exchange,
        }
    }
}

/// The decision at `now`: a cached token is used again while it is valid, and
/// in every other case a new one is asked for.
pub open spec fn decide(cached: Option<AccessTokenView>, now: Instant) -> TokenDecisionView {
    match cached {
        Some(token) if token.valid_at(now) => TokenDecisionView::Reuse(token.value),
        _ => TokenDecisionView::Exchange,
    }
}

/// A token taken out of the answer of the identity endpoint: its text and the
/// expiry claim it carries, in seconds of Unix time.
#[derive(Debug, Clone, PartialEq, Eq)]
pub struct IssuedToken {
    pub access_token: String,
    pub expires_at: i64,
}

/// The cause reported for an expiry claim that no instant stands for.
pub open spec fn unusable_expiry() -> Seq<char> {
    "the expiry claim is out of range"@
}

/// Keeps the current token for everyone who needs one.
pub struct CredentialBroker {
    cached: Option<AccessToken>,
}

impl View for CredentialBroker {
    type V = Option<AccessTokenView>;

    closed spec fn view(&self) -> Option<AccessTokenView> {
        match self.cached {
            Some(token) => Some(token@),
            None => None,
        }
    }
}

impl CredentialBroker {
    /// A broker that holds no token yet.
    pub fn new() -> (broker: CredentialBroker)
        ensures
            broker@ is None,
    {
        CredentialBroker { cached: None }
    }

    /// Decides at `now` between the cached token and a new exchange.
    pub fn token_at(&self, now: Instant) -> (decision: TokenDecision)
        ensures
            decision@ == decide(self@, now),
    {
        match &self.cached {
            Some(token) => if now.is_before(&token.expires_at) {
                TokenDecision::Reuse(token.value.clone())
            } else {
                TokenDecision::Exchange
            },
            None => TokenDecision::Exchange,
        }
    }

    /// Decides between the cached token and a new exchange by the clock of
    /// the machine. Whatever the clock reads, the decision is the one for
    /// that reading.
    pub fn get_token(&self) -> (decision: TokenDecision)
        ensures
            exists|now: Instant| decision@ == #[trigger] decide(self@, now),
    {
        let now = utc_now();
        self.token_at(now)
    }

    /// Replaces whatever is cached by `token`.
    pub fn store(&mut self, token: AccessToken)
        ensures
            final(self)@ == Some(token@),
    {
        self.cached = Some(token);
    }

    /// Takes in an exchanged token whose expiry has been turned into an
    /// instant, `None` standing for a claim that no instant stands for. With
    /// an instant the token is cached and returned; without one the cache is
    /// left alone.
    pub fn accept(&mut self, access_token: String, expires_at: Option<Instant>) -> (r: Result<
        String,
        GatewayError,
    >)
        ensures
            match expires_at {
                Some(at) => r matches Ok(value) && value@ == access_token@ && final(self)@ == Some(
                    AccessTokenView { value: access_token@, expires_at: at },
                ),
                None => r matches Err(GatewayError::AuthFailure(cause)) && cause@
                    == unusable_expiry() && final(self)@ == old(self)@,
            },
    {
        match expires_at {
            Some(at) => {
                let value = access_token.clone();
                self.store(AccessToken { value: access_token, expires_at: at });
                Ok(value)
            },
            None => Err(GatewayError::AuthFailure("the expiry claim is out of range".to_owned())),
        }
    }

    /// Takes in the outcome of an exchange with the identity endpoint.
    ///
    /// A token whose expiry claim the calendar can hold is cached, valid up to
    /// that second, and returned. A claim out of range and a failed exchange
    /// are authentication failures, and leave the cache as it was.
    pub fn install(&mut self, exchanged: Result<IssuedToken, String>) -> (r: Result<
        String,
        GatewayError,
    >)
        ensures
            match exchanged {
                Ok(issued) => if representable(issued.expires_at) {
                    r matches Ok(value) && value@ == issued.access_token@ && final(self)@ == Some(
                        AccessTokenView {
                            value: issued.access_token@,
                            expires_at: Instant { secs: issued.expires_at, nanos: 0 },
                        },
                    )
                } else {
                    r matches Err(GatewayError::AuthFailure(cause)) && cause@ == unusable_expiry()
                        && final(self)@ == old(self)@
                },
                Err(cause) => r == Err::<String, GatewayError>(GatewayError::AuthFailure(cause))
                    && final(self)@ == old(self)@,
            },
    {
        match exchanged {
            Ok(issued) => {
                let at = instant_at(issued.expires_at);
                self.accept(issued.access_token, at)
            },
            Err(cause) => Err(GatewayError::AuthFailure(cause)),
        }
    }
}

/// An expired or absent token calls for one exchange; the token that the
/// exchange brings is then used again at every instant before its expiry,
/// and from its expiry on the next exchange is due.
pub proof fn lemma_exchange_then_reuse(
    stale: Option<AccessTokenView>,
    fresh: AccessTokenView,
    now: Instant,
    later: Instant,
)
    requires
        stale matches Some(token) ==> !token.valid_at(now),
    ensures
        decide(stale, now) == TokenDecisionView::Exchange,
        later.precedes(fresh.expires_at) ==> decide(Some(fresh), later) == TokenDecisionView::Reuse(
            fresh.value,
        ),
        !later.precedes(fresh.expires_at) ==> decide(Some(fresh), later)
            == TokenDecisionView::Exchange,
{
}

/// The service whose tokens are asked for.
pub open spec fn resource() -> Seq<char> {
    "https://graph.microsoft.com"@
}

/// The address of the identity endpoint of a tenant.
pub open spec fn token_url(tenant: Seq<char>) -> Seq<char> {
    "https://login.microsoftonline.com/"@ + tenant + "/oauth2/v2.0/token"@
}

/// The fields of a client-credentials exchange, in the order they are sent.
pub open spec fn token_form(client_id: Seq<char>, client_secret: Seq<char>) -> Seq<
    (Seq<char>, Seq<char>),
> {
    seq![
        ("client_id"@, client_id),
        ("scope"@, resource() + "/.default"@),
        ("client_secret"@, client_secret),
        ("grant_type"@, "client_credentials"@),
    ]
}

/// What identifies this client to the identity endpoint.
#[derive(Debug, Clone, PartialEq, Eq)]
pub struct Credentials {
    pub tenant: String,
    pub client_id: String,
    pub client_secret: String,
}

/// A form to be posted to the identity endpoint.
#[derive(Debug, Clone, PartialEq, Eq)]
pub struct TokenRequest {
    pub url: String,
    pub form: Vec<(String, String)>,
}

impl TokenRequest {
    /// The fields of the form as texts.
    pub open spec fn fields(&self) -> Seq<(Seq<char>, Seq<char>)> {
        self.form@.map_values(|field: (String, String)| (field.0@, field.1@))
    }
}

/// The service whose tokens are asked for, which is also the audience that
/// such a token names.
pub fn resource_name() -> (name: &'static str)
    ensures
        name@ == resource(),
{
    "https://graph.microsoft.com"
}

impl Credentials {
    /// The exchange that asks for a new token.
    pub fn exchange_request(&self) -> (request: TokenRequest)
        ensures
            request.url@ == token_url(self.tenant@),
            request.fields() == token_form(self.client_id@, self.client_secret@),
    {
        let mut url = "https://login.microsoftonline.com/".to_owned();
        url.append(self.tenant.as_str());
        url.append("/oauth2/v2.0/token");
        let mut scope = resource_name().to_owned();
        scope.append("/.default");
        let mut form: Vec<(String, String)> = Vec::new();
        form.push(("client_id".to_owned(), self.client_id.clone()));
        form.push(("scope".to_owned(), scope));
        form.push(("client_secret".to_owned(), self.client_secret.clone()));
        form.push(("grant_type".to_owned(), "client_credentials".to_owned()));
        let request = TokenRequest { url, form };
        assert(request.fields() =~= token_form(self.client_id@, self.client_secret@));
        request
    }
}

} // verus!
