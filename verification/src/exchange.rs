//! The code-for-token exchange: the form-encoded request body sent to the
//! provider's token endpoint, and the classification of what comes back
//! into a usable token set or a typed error.

use vstd::prelude::*;
use vstd::string::StringExecFns;
use crate::urlenc::{url_encode, url_encode_chars};

verus! {

/// The form fields of the code-for-token request.
pub struct TokenRequest {
    pub grant_type: String,
    pub code: String,
    pub redirect_uri: String,
    pub client_id: String,
    pub client_secret: String,
}

/// The provider's token payload, as plain values: the fields a successful
/// exchange must carry.
#[derive(Clone)]
pub struct TokenResponse {
    pub access_token: String,
    pub token_type: String,
    pub expires_in: u64,
    pub refresh_token: Option<String>,
    pub scope: String,
}

/// A granted credential with its validity window resolved against the
/// clock: `expires_at` is `issued_at + expires_in` as the provider
/// reported it (capped at the largest representable instant).
#[derive(Clone, Debug)]
pub struct TokenSet {
    pub access_token: String,
    pub refresh_token: Option<String>,
    pub token_type: String,
    pub scope: String,
    pub issued_at: u64,
    pub expires_at: u64,
}

impl TokenSet {
    /// The validity window never ends before it starts.
    pub open spec fn wf(&self) -> bool {
        self.issued_at <= self.expires_at
    }
}

/// Why an exchange yielded no token.
#[derive(Clone, Debug, PartialEq, Eq)]
pub enum ExchangeError {
    /// The request never produced an HTTP response (DNS, timeout,
    /// connection refused).
    TransportError,
    /// HTTP 401.
    Unauthorized,
    /// HTTP 403.
    Forbidden,
    /// HTTP 429.
    RateLimited,
    /// HTTP 500 through 599.
    ProviderUnavailable,
    /// Any other non-2xx status.
    Unexpected { status: u16, body: String },
    /// A 2xx response whose body was not a usable token payload.
    MalformedResponse,
}

impl ExchangeError {
    /// An equal copy, string contents included.
    pub fn duplicate(&self) -> (r: ExchangeError)
        ensures
            r == *self,
    {
        match self {
            ExchangeError::TransportError => ExchangeError::TransportError,
            ExchangeError::Unauthorized => ExchangeError::Unauthorized,
            ExchangeError::Forbidden => ExchangeError::Forbidden,
            ExchangeError::RateLimited => ExchangeError::RateLimited,
            ExchangeError::ProviderUnavailable => ExchangeError::ProviderUnavailable,
            ExchangeError::Unexpected { status, body } => ExchangeError::Unexpected {
                status: *status,
                body: body.clone(),
            },
            ExchangeError::MalformedResponse => ExchangeError::MalformedResponse,
        }
    }
}

/// The form-encoded body of the code-for-token request.
pub open spec fn spec_token_request_body(req: &TokenRequest) -> Seq<char> {
    "grant_type="@ + url_encode_chars(req.grant_type@) + "&code="@ + url_encode_chars(req.code@)
        + "&redirect_uri="@ + url_encode_chars(req.redirect_uri@) + "&client_id="@
        + url_encode_chars(req.client_id@) + "&client_secret="@ + url_encode_chars(
        req.client_secret@,
    )
}

/// Builds the percent-encoded form body for the code-for-token request.
pub fn token_request_body(req: &TokenRequest) -> (r: String)
    ensures
        r@ == spec_token_request_body(req),
{
    let mut r = String::new();
    r.append("grant_type=");
    r.append(url_encode(req.grant_type.as_str()).as_str());
    r.append("&code=");
    r.append(url_encode(req.code.as_str()).as_str());
    r.append("&redirect_uri=");
    r.append(url_encode(req.redirect_uri.as_str()).as_str());
    r.append("&client_id=");
    r.append(url_encode(req.client_id.as_str()).as_str());
    r.append("&client_secret=");
    r.append(url_encode(req.client_secret.as_str()).as_str());
    assert(r@ =~= spec_token_request_body(req));
    r
}

/// The form-encoded body of a refresh exchange: the same endpoint with
/// `grant_type=refresh_token`.
pub open spec fn spec_refresh_request_body(
    refresh_token: Seq<char>,
    client_id: Seq<char>,
    client_secret: Seq<char>,
) -> Seq<char> {
    "grant_type=refresh_token&refresh_token="@ + url_encode_chars(refresh_token) + "&client_id="@
        + url_encode_chars(client_id) + "&client_secret="@ + url_encode_chars(client_secret)
}

/// Builds the percent-encoded form body for a refresh exchange.
pub fn refresh_request_body(refresh_token: &str, client_id: &str, client_secret: &str) -> (r:
    String)
    ensures
        r@ == spec_refresh_request_body(refresh_token@, client_id@, client_secret@),
{
    let mut r = String::new();
    r.append("grant_type=refresh_token&refresh_token=");
    r.append(url_encode(refresh_token).as_str());
    r.append("&client_id=");
    r.append(url_encode(client_id).as_str());
    r.append("&client_secret=");
    r.append(url_encode(client_secret).as_str());
    assert(r@ =~= spec_refresh_request_body(refresh_token@, client_id@, client_secret@));
    r
}

/// `issued_at + expires_in`, capped at the largest representable instant.
pub open spec fn spec_expiry(now: u64, expires_in: u64) -> u64 {
    if now + expires_in <= u64::MAX {
        (now + expires_in) as u64
    } else {
        u64::MAX
    }
}

/// Classifies one HTTP answer from the token endpoint, received at time
/// `now`: a 2xx answer whose body parsed into `payload` yields the token
/// set; a 2xx answer with no usable payload is malformed; the remaining
/// statuses map onto the fixed error taxonomy. A request that produced no
/// answer at all is `TransportError` and never reaches this function.
pub fn classify_token_response(status: u16, body: &str, payload: Option<TokenResponse>, now: u64)
    -> (r: Result<TokenSet, ExchangeError>)
    ensures
        200 <= status < 300 ==> (payload matches Some(p) ==> (r matches Ok(t) && t.access_token@
            == p.access_token@ && t.token_type@ == p.token_type@ && t.scope@ == p.scope@
            && t.refresh_token.deep_view() == p.refresh_token.deep_view() && t.issued_at == now
            && t.expires_at == spec_expiry(now, p.expires_in) && t.wf())),
        200 <= status < 300 && payload is None ==> r == Result::<TokenSet, ExchangeError>::Err(
            ExchangeError::MalformedResponse,
        ),
        !(200 <= status < 300) ==> {
            &&& status == 401 ==> r == Result::<TokenSet, ExchangeError>::Err(
                ExchangeError::Unauthorized,
            )
            &&& status == 403 ==> r == Result::<TokenSet, ExchangeError>::Err(
                ExchangeError::Forbidden,
            )
            &&& status == 429 ==> r == Result::<TokenSet, ExchangeError>::Err(
                ExchangeError::RateLimited,
            )
            &&& 500 <= status < 600 ==> r == Result::<TokenSet, ExchangeError>::Err(
                ExchangeError::ProviderUnavailable,
            )
            &&& (status != 401 && status != 403 && status != 429 && !(500 <= status < 600)) ==> (
            r matches Err(ExchangeError::Unexpected { status: s, body: b }) && s == status && b@
                == body@)
        },
        r is Ok <==> (200 <= status < 300 && payload is Some),
{
    if 200 <= status && status < 300 {
        match payload {
            Some(p) => {
                let expires_at: u64 = if p.expires_in > u64::MAX - now {
                    u64::MAX
                } else {
                    now + p.expires_in
                };
                Ok(
                    TokenSet {
                        access_token: p.access_token,
                        refresh_token: p.refresh_token,
                        token_type: p.token_type,
                        scope: p.scope,
                        issued_at: now,
                        expires_at,
                    },
                )
            },
            None => Err(ExchangeError::MalformedResponse),
        }
    } else if status == 401 {
        Err(ExchangeError::Unauthorized)
    } else if status == 403 {
        Err(ExchangeError::Forbidden)
    } else if status == 429 {
        Err(ExchangeError::RateLimited)
    } else if 500 <= status && status < 600 {
        Err(ExchangeError::ProviderUnavailable)
    } else {
        Err(ExchangeError::Unexpected { status, body: body.to_owned() })
    }
}

} // verus!
