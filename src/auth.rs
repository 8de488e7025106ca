//! Credentials and the authorization flow.
use vstd::prelude::*;
use vstd::utf8::encode_utf8;
use crate::error::FyersError;
use crate::rest::{is_ok_status, FYERS_API_BASE_URL};
use crate::text::{hex_lower, hex_string, json_quoted, json_string};

verus! {

/// The authorization header value `"<identity>:<token>"`.
pub open spec fn authorization_spec(app_id: Seq<char>, access_token: Seq<char>) -> Seq<char> {
    app_id + seq![':'] + access_token
}

/// An application identity and an access token: the pair behind every
/// authenticated call, the socket handshake included.
pub struct Credentials {
    app_id: String,
    access_token: String,
}

impl Credentials {
    /// The application identity.
    pub closed spec fn app_id_view(&self) -> Seq<char> {
        self.app_id@
    }

    /// The access token.
    pub closed spec fn access_token_view(&self) -> Seq<char> {
        self.access_token@
    }

    /// Holds the pair.
    pub fn new(app_id: String, access_token: String) -> (r: Credentials)
        ensures
            r.app_id_view() == app_id@,
            r.access_token_view() == access_token@,
    {
        Credentials { app_id, access_token }
    }

    /// The application identity.
    pub fn app_id(&self) -> (r: &str)
        ensures
            r@ == self.app_id_view(),
    {
        self.app_id.as_str()
    }

    /// The access token.
    pub fn access_token(&self) -> (r: &str)
        ensures
            r@ == self.access_token_view(),
    {
        self.access_token.as_str()
    }

    /// The value of the `Authorization` header: `"<identity>:<token>"`.
    pub fn authorization(&self) -> (r: String)
        ensures
            r@ == authorization_spec(self.app_id_view(), self.access_token_view()),
    {
        let mut out = self.app_id.clone();
        out.append(":");
        proof {
            reveal_strlit(":");
        }
        out.append(self.access_token.as_str());
        out
    }
}

/// The SHA-256 digest of a byte string.
pub uninterp spec fn sha256_of(b: Seq<u8>) -> Seq<u8>;

/// Relies on `sha2::Sha256::digest` (through the `Digest` trait): the 32-byte
/// SHA-256 digest of `b`.
#[verifier::external_body]
fn sha256(b: &[u8]) -> (r: Vec<u8>)
    ensures
        r@ == sha256_of(b@),
        r@.len() == 32,
{
    <sha2::Sha256 as sha2::Digest>::digest(b).to_vec()
}

/// The login page URL where a user grants the application an authorization code.
pub open spec fn auth_url_spec(client_id: Seq<char>, redirect_uri: Seq<char>, state: Seq<char>) -> Seq<
    char,
> {
    FYERS_API_BASE_URL@ + "/generate-authcode?client_id="@ + client_id + "&redirect_uri="@
        + redirect_uri + "&response_type=code&state="@ + state
}

/// The initial authentication URL where the user must log in; `state` is a
/// random string that guards against cross-site request forgery.
pub fn generate_auth_url(client_id: &str, redirect_uri: &str, state: &str) -> (r: String)
    ensures
        r@ == auth_url_spec(client_id@, redirect_uri@, state@),
{
    let mut out = String::from_str(FYERS_API_BASE_URL);
    out.append("/generate-authcode?client_id=");
    out.append(client_id);
    out.append("&redirect_uri=");
    out.append(redirect_uri);
    out.append("&response_type=code&state=");
    out.append(state);
    out
}

/// The application hash sent in the token exchange: the lower-case hex text
/// of the SHA-256 digest of the UTF-8 bytes of `"<client_id>:<secret>"`.
pub open spec fn app_id_hash_spec(client_id: Seq<char>, client_secret: Seq<char>) -> Seq<char> {
    hex_lower(sha256_of(encode_utf8(authorization_spec(client_id, client_secret))))
}

/// The application hash sent in the token exchange.
pub fn app_id_hash(client_id: &str, client_secret: &str) -> (r: String)
    ensures
        r@ == app_id_hash_spec(client_id@, client_secret@),
        r@.len() == 64,
{
    let mut pair = String::from_str(client_id);
    pair.append(":");
    proof {
        reveal_strlit(":");
    }
    pair.append(client_secret);
    assert(pair@ =~= authorization_spec(client_id@, client_secret@));
    let text = pair.as_str();
    let bytes = text.as_bytes();
    assert(bytes@ == encode_utf8(authorization_spec(client_id@, client_secret@)));
    let digest = sha256(bytes);
    let r = hex_string(digest.as_slice());
    proof {
        lemma_hex_lower_len(digest@);
    }
    r
}

/// Hex text has two characters per byte.
pub proof fn lemma_hex_lower_len(b: Seq<u8>)
    ensures
        hex_lower(b).len() == 2 * b.len(),
    decreases b.len(),
{
    if b.len() > 0 {
        lemma_hex_lower_len(b.drop_last());
    }
}

/// The JSON body of the token exchange request.
pub open spec fn token_request_spec(app_id_hash: Seq<char>, auth_code: Seq<char>) -> Seq<char> {
    "{\"grant_type\":\"authorization_code\",\"appIdHash\":"@ + json_quoted(app_id_hash)
        + ",\"code\":"@ + json_quoted(auth_code) + "}"@
}

/// Body of the token exchange request:
/// `{"grant_type":"authorization_code","appIdHash":..,"code":..}`.
pub fn token_request_body(app_id_hash: &str, auth_code: &str) -> (r: String)
    ensures
        r@ == token_request_spec(app_id_hash@, auth_code@),
{
    let mut out = String::from_str("{\"grant_type\":\"authorization_code\",\"appIdHash\":");
    let h = json_string(app_id_hash);
    out.append(h.as_str());
    out.append(",\"code\":");
    let c = json_string(auth_code);
    out.append(c.as_str());
    out.append("}");
    out
}

/// Message of the error for an `"ok"` token response that holds no token.
pub const MISSING_TOKEN: &'static str = "API returned ok, but no access token was found";

/// Reads the token exchange response: with status `"ok"` the access token it
/// holds (an `AuthError` when it holds none), otherwise the API error.
pub fn token_from_response(s: String, code: i64, message: String, access_token: Option<String>) -> (r:
    Result<String, FyersError>)
    ensures
        s@ == "ok"@ && access_token is Some ==> r == Ok::<String, FyersError>(access_token->Some_0),
        s@ == "ok"@ && access_token is None ==> (r matches Err(FyersError::AuthError(m))
            && m@ == MISSING_TOKEN@),
        s@ != "ok"@ ==> r == Err::<String, FyersError>(FyersError::ApiError { s, code, message }),
{
    if is_ok_status(&s) {
        match access_token {
            Some(t) => Ok(t),
            None => Err(FyersError::AuthError(String::from_str(MISSING_TOKEN))),
        }
    } else {
        Err(FyersError::ApiError { s, code, message })
    }
}

/// The error for a token exchange answered with an HTTP failure: the status
/// as displayed and the response body, in an `AuthError`.
pub fn token_http_failure(status: &str, body: &str) -> (r: FyersError)
    ensures
        r matches FyersError::AuthError(m) && m@ == "Token validation failed with status: "@
            + status@ + " \n Body: "@ + body@,
{
    let mut m = String::from_str("Token validation failed with status: ");
    m.append(status);
    m.append(" \n Body: ");
    m.append(body);
    FyersError::AuthError(m)
}

} // verus!
