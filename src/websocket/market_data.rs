//! The streaming client: owns the one live connection and decides, for each
//! step of its lifecycle, what happens next. The transport itself is the
//! caller's: it performs the handshake, the sends and the receives that the
//! client asks for, and reports back what came of them.
use vstd::prelude::*;
use crate::auth::{authorization_spec, Credentials};
use crate::error::FyersError;
use crate::models::websocket::{SubscriptionMode, SubscriptionRequest};
use crate::websocket::frame::{
    action_for,
    action_spec,
    ends_stream,
    is_terminal,
    Action,
    ControlFrame,
    ListenEvent,
};
use crate::websocket::handshake::{endpoint_host, fresh_key, is_key_text, url_host, HandshakeRequest};
use crate::websocket::subscription::{
    encode_subscribe,
    encode_unsubscribe,
    request_json,
    subscribe_spec,
    unsubscribe_spec,
};

verus! {

/// The fixed market-data endpoint.
pub const MARKET_DATA_URL: &'static str = "wss://socket.fyers.in/hsm/v1-5/prod";

/// The REST endpoint that returns the socket URL when the feed endpoint is not static.
pub const TBTWS_URL_REST_ENDPOINT: &'static str = "https://api-t1.fyers.in/indus/home/tbtws";

/// The status with which a server accepts the upgrade to the streaming protocol.
pub const SWITCHING_PROTOCOLS: u16 = 101;

/// Whether the client holds a live connection.
#[derive(Clone, Copy, Debug, PartialEq, Eq, Structural)]
pub enum ConnectionState {
    Disconnected,
    Connected,
}

/// Why an upgrade request cannot be built in state `st` for `url`, if it can't.
pub open spec fn handshake_error(st: ConnectionState, url: Seq<char>) -> Option<FyersError> {
    if st is Connected {
        Some(FyersError::AlreadyConnected)
    } else if url_host(url) is None {
        Some(FyersError::InvalidUrl)
    } else {
        None
    }
}

/// Whether a handshake answer status lets the connection open: only the
/// protocol's upgrade status, `101 Switching Protocols`.
pub open spec fn handshake_accepted(status: u16) -> bool {
    status == SWITCHING_PROTOCOLS
}

/// State and result after the handshake was answered with `status` in state `st`.
pub open spec fn connect_outcome(st: ConnectionState, status: u16) -> (
    ConnectionState,
    Result<(), FyersError>,
) {
    if st is Connected {
        (ConnectionState::Connected, Err(FyersError::AlreadyConnected))
    } else if handshake_accepted(status) {
        (ConnectionState::Connected, Ok(()))
    } else {
        (ConnectionState::Disconnected, Err(FyersError::HandshakeFailed(status)))
    }
}

/// Why a control message cannot be sent in state `st` for `n` symbols, if it can't.
pub open spec fn send_error(st: ConnectionState, n: int) -> Option<FyersError> {
    if st is Disconnected {
        Some(FyersError::NotConnected)
    } else if n == 0 {
        Some(FyersError::InvalidArgument)
    } else {
        None
    }
}

/// State after the receive loop handled an event in state `st`.
pub open spec fn listen_state<M>(st: ConnectionState, e: ListenEvent<M>) -> ConnectionState {
    if ends_stream(e) {
        ConnectionState::Disconnected
    } else {
        st
    }
}

/// Once a connection opened, another `connect` fails with `AlreadyConnected`
/// before any I/O and again if a handshake is completed; the state stays
/// `Connected` throughout.
pub proof fn lemma_connect_twice(st: ConnectionState, first: u16, second: u16, url: Seq<char>)
    requires
        connect_outcome(st, first).1 is Ok,
    ensures
        connect_outcome(st, first).0 is Connected,
        handshake_error(connect_outcome(st, first).0, url) == Some(FyersError::AlreadyConnected),
        connect_outcome(connect_outcome(st, first).0, second) == (
            ConnectionState::Connected,
            Err::<(), FyersError>(FyersError::AlreadyConnected),
        ),
{
}

/// Until a connection opened, subscribing and unsubscribing fail with
/// `NotConnected`, whatever the symbols; a refused handshake opens none.
pub proof fn lemma_send_needs_connection(n: int, status: u16)
    ensures
        send_error(ConnectionState::Disconnected, n) == Some(FyersError::NotConnected),
        !handshake_accepted(status) ==> send_error(
            connect_outcome(ConnectionState::Disconnected, status).0,
            n,
        ) == Some(FyersError::NotConnected),
{
}

/// A close frame ends the receive loop normally, with no error, and leaves
/// the client disconnected, so that the next `connect` is not refused as
/// `AlreadyConnected` and opens the connection when the handshake is accepted.
pub proof fn lemma_close_allows_reconnect<M>(
    st: ConnectionState,
    reason: Option<String>,
    url: Seq<char>,
    status: u16,
)
    ensures
        action_spec(ListenEvent::<M>::Control(ControlFrame::Close(reason))) == Action::<M>::Finish,
        listen_state(st, ListenEvent::<M>::Control(ControlFrame::Close(reason))) is Disconnected,
        handshake_error(
            listen_state(st, ListenEvent::<M>::Control(ControlFrame::Close(reason))),
            url,
        ) != Some(FyersError::AlreadyConnected),
        handshake_accepted(status) ==> connect_outcome(
            listen_state(st, ListenEvent::<M>::Control(ControlFrame::Close(reason))),
            status,
        ) == (ConnectionState::Connected, Ok::<(), FyersError>(())),
{
}

/// A market-data streaming client over a duplex stream of type `S`. The
/// stream is held only while connected, so the state and the stream never
/// disagree.
pub struct MarketDataSocket<S> {
    credentials: Credentials,
    stream: Option<S>,
}

impl<S> MarketDataSocket<S> {
    /// The connection state.
    pub closed spec fn state(&self) -> ConnectionState {
        if self.stream is Some {
            ConnectionState::Connected
        } else {
            ConnectionState::Disconnected
        }
    }

    /// The live stream, while connected.
    pub closed spec fn live_stream(&self) -> Option<S> {
        self.stream
    }

    /// The credentials the client authenticates with.
    pub closed spec fn credentials_view(&self) -> (Seq<char>, Seq<char>) {
        (self.credentials.app_id_view(), self.credentials.access_token_view())
    }

    /// A disconnected client for the given identity and token.
    pub fn new(app_id: String, access_token: String) -> (r: MarketDataSocket<S>)
        ensures
            r.state() is Disconnected,
            r.credentials_view() == (app_id@, access_token@),
    {
        MarketDataSocket { credentials: Credentials::new(app_id, access_token), stream: None }
    }

    /// Whether the client is connected.
    pub fn is_connected(&self) -> (r: bool)
        ensures
            r == (self.state() is Connected),
    {
        self.stream.is_some()
    }

    /// The value of the `Authorization` header of the handshake.
    pub fn authorization(&self) -> (r: String)
        ensures
            r@ == authorization_spec(self.credentials_view().0, self.credentials_view().1),
    {
        self.credentials.authorization()
    }

    /// The upgrade request that opens a connection to `url`, with a fresh key.
    /// Fails with `AlreadyConnected` while a connection is live (no I/O is
    /// owed then), and with `InvalidUrl` where `url` names no host.
    pub fn handshake_request(&self, url: &str) -> (r: Result<HandshakeRequest, FyersError>)
        ensures
            match handshake_error(self.state(), url@) {
                Some(e) => r == Err::<HandshakeRequest, FyersError>(e),
                None => r is Ok,
            },
            r matches Ok(req) ==> {
                &&& req.uri@ == url@
                &&& url_host(url@) == Some(req.host@)
                &&& req.authorization@ == authorization_spec(
                    self.credentials_view().0,
                    self.credentials_view().1,
                )
                &&& is_key_text(req.key@)
            },
    {
        if self.stream.is_some() {
            return Err(FyersError::AlreadyConnected);
        }
        match endpoint_host(url) {
            None => Err(FyersError::InvalidUrl),
            Some(host) => {
                let key = fresh_key();
                Ok(
                    HandshakeRequest {
                        uri: String::from_str(url),
                        host,
                        authorization: self.credentials.authorization(),
                        key,
                    },
                )
            },
        }
    }

    /// Records the answer to the handshake: with the upgrade status 101 the
    /// stream becomes the live connection; otherwise it fails with
    /// `HandshakeFailed` and the client stays disconnected. A client that is
    /// already connected keeps its connection and fails with `AlreadyConnected`.
    pub fn complete_handshake(&mut self, status: u16, stream: S) -> (r: Result<(), FyersError>)
        ensures
            (final(self).state(), r) == connect_outcome(old(self).state(), status),
            final(self).credentials_view() == old(self).credentials_view(),
            old(self).state() is Connected
                ==> final(self).live_stream() == old(self).live_stream(),
            old(self).state() is Disconnected && handshake_accepted(status)
                ==> final(self).live_stream() == Some(stream),
    {
        if self.stream.is_some() {
            return Err(FyersError::AlreadyConnected);
        }
        if status == SWITCHING_PROTOCOLS {
            self.stream = Some(stream);
            Ok(())
        } else {
            Err(FyersError::HandshakeFailed(status))
        }
    }

    /// The text of a control message, to be sent on the live connection.
    /// Fails with `NotConnected` while disconnected and with
    /// `InvalidArgument` when the request names no symbol.
    pub fn send_request(&self, request: &SubscriptionRequest) -> (r: Result<String, FyersError>)
        ensures
            match send_error(self.state(), request.data.symbols@.len() as int) {
                Some(e) => r == Err::<String, FyersError>(e),
                None => r matches Ok(t) && t@ == request_json(*request),
            },
    {
        if self.stream.is_none() {
            return Err(FyersError::NotConnected);
        }
        if request.data.symbols.len() == 0 {
            return Err(FyersError::InvalidArgument);
        }
        Ok(request.to_json())
    }

    /// The text that subscribes `symbols` in mode `mode`.
    pub fn subscribe(&self, symbols: &[&str], mode: SubscriptionMode) -> (r: Result<
        String,
        FyersError,
    >)
        ensures
            match send_error(self.state(), symbols@.len() as int) {
                Some(e) => r == Err::<String, FyersError>(e),
                None => r matches Ok(t) && t@ == request_json(subscribe_spec(symbols, mode)),
            },
    {
        let request = encode_subscribe(symbols, mode);
        self.send_request(&request)
    }

    /// The text that unsubscribes `symbols`.
    pub fn unsubscribe(&self, symbols: &[&str]) -> (r: Result<String, FyersError>)
        ensures
            match send_error(self.state(), symbols@.len() as int) {
                Some(e) => r == Err::<String, FyersError>(e),
                None => r matches Ok(t) && t@ == request_json(unsubscribe_spec(symbols)),
            },
    {
        let request = encode_unsubscribe(symbols);
        self.send_request(&request)
    }

    /// Checks that the receive loop may start: it needs a live connection.
    pub fn start_listening(&self) -> (r: Result<(), FyersError>)
        ensures
            self.state() is Connected ==> r is Ok,
            self.state() is Disconnected ==> r == Err::<(), FyersError>(FyersError::NotConnected),
    {
        if self.stream.is_some() {
            Ok(())
        } else {
            Err(FyersError::NotConnected)
        }
    }

    /// One turn of the receive loop: the action that answers `event`. A
    /// close frame or the end of the stream ends the loop and drops the
    /// connection, so that a later `connect` is valid again; every other
    /// event leaves the state as it is.
    pub fn on_event<M>(&mut self, event: ListenEvent<M>) -> (r: Action<M>)
        ensures
            r == action_spec(event),
            final(self).state() == listen_state(old(self).state(), event),
            !ends_stream(event) ==> final(self).live_stream() == old(self).live_stream(),
            final(self).credentials_view() == old(self).credentials_view(),
    {
        if is_terminal(&event) {
            self.stream = None;
        }
        action_for(event)
    }

    /// Ends the connection: hands the stream back for a graceful shutdown, if
    /// there was one, and leaves the client disconnected in any case.
    pub fn close(&mut self) -> (r: Option<S>)
        ensures
            r == old(self).live_stream(),
            final(self).state() is Disconnected,
            final(self).credentials_view() == old(self).credentials_view(),
    {
        self.stream.take()
    }

    /// The live stream, for the sends and receives that the client asks for.
    pub fn stream_mut(&mut self) -> (r: Option<&mut S>)
        ensures
            match r {
                Some(s) => {
                    &&& old(self).live_stream() == Some(*s)
                    &&& final(self).live_stream() == Some(*final(s))
                },
                None => old(self).live_stream() is None && *final(self) == *old(self),
            },
            final(self).credentials_view() == old(self).credentials_view(),
    {
        self.stream.as_mut()
    }
}

} // verus!
