//! The authenticated upgrade request that opens the streaming connection.
use vstd::prelude::*;

verus! {

/// The host part of a URL as the `url` crate parses it; `None` where the text
/// does not parse or names no host.
pub uninterp spec fn url_host(url: Seq<char>) -> Option<Seq<char>>;

/// Relies on `url::Url::parse` and `Url::host_str`: the host of `url`, or
/// `None` where it does not parse or has no host.
#[verifier::external_body]
pub(crate) fn endpoint_host(url: &str) -> (r: Option<String>)
    ensures
        match r {
            Some(h) => url_host(url@) == Some(h@),
            None => url_host(url@) is None,
        },
{
    match url::Url::parse(url) {
        Ok(u) => u.host_str().map(|h| h.to_string()),
        Err(_) => None,
    }
}

/// A symbol of the standard base64 alphabet.
pub open spec fn is_base64_symbol(c: char) -> bool {
    ('A' <= c <= 'Z') || ('a' <= c <= 'z') || ('0' <= c <= '9') || c == '+' || c == '/'
}

/// Padded base64 text of 16 bytes: 22 symbols, then two `=`.
pub open spec fn is_key_text(k: Seq<char>) -> bool {
    &&& k.len() == 24
    &&& forall|i: int| 0 <= i < 22 ==> is_base64_symbol(#[trigger] k[i])
    &&& k[22] == '='
    &&& k[23] == '='
}

/// Relies on `tungstenite::handshake::client::generate_key`: a fresh random
/// `Sec-WebSocket-Key`, the text of 16 random bytes in `data_encoding::BASE64`
/// (the standard alphabet, padded with `=`).
#[verifier::external_body]
pub(crate) fn fresh_key() -> (r: String)
    ensures
        is_key_text(r@),
{
    tokio_tungstenite::tungstenite::handshake::client::generate_key()
}

/// An upgrade request: the URI to open and the values of its headers.
pub struct HandshakeRequest {
    pub uri: String,
    pub host: String,
    pub authorization: String,
    pub key: String,
}

/// Header names and values of the upgrade request, in the order they are sent.
pub open spec fn headers_spec(host: Seq<char>, authorization: Seq<char>, key: Seq<char>) -> Seq<
    (Seq<char>, Seq<char>),
> {
    seq![
        ("Host"@, host),
        ("Authorization"@, authorization),
        ("Sec-WebSocket-Version"@, "13"@),
        ("Sec-WebSocket-Key"@, key),
        ("Connection"@, "Upgrade"@),
        ("Upgrade"@, "websocket"@),
    ]
}

/// Views of a list of header pairs.
pub open spec fn pairs_view(v: Seq<(String, String)>) -> Seq<(Seq<char>, Seq<char>)> {
    v.map_values(|p: (String, String)| (p.0@, p.1@))
}

impl HandshakeRequest {
    /// The headers of the request: host, authorization, protocol version,
    /// key, and the two that ask for the upgrade.
    pub fn headers(&self) -> (r: Vec<(String, String)>)
        ensures
            pairs_view(r@) == headers_spec(self.host@, self.authorization@, self.key@),
    {
        let mut v: Vec<(String, String)> = Vec::new();
        v.push((String::from_str("Host"), self.host.clone()));
        v.push((String::from_str("Authorization"), self.authorization.clone()));
        v.push((String::from_str("Sec-WebSocket-Version"), String::from_str("13")));
        v.push((String::from_str("Sec-WebSocket-Key"), self.key.clone()));
        v.push((String::from_str("Connection"), String::from_str("Upgrade")));
        v.push((String::from_str("Upgrade"), String::from_str("websocket")));
        assert(pairs_view(v@) =~= headers_spec(self.host@, self.authorization@, self.key@));
        v
    }
}

} // verus!
