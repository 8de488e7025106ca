use fyers_rust::error::FyersError;
use fyers_rust::models::SubscriptionMode;
use fyers_rust::websocket::frame::{Action, ControlFrame, Diagnostic, ListenEvent};
use fyers_rust::websocket::market_data::MARKET_DATA_URL;
use fyers_rust::websocket::MarketDataSocket;

fn connected() -> MarketDataSocket<u32> {
    let mut s = MarketDataSocket::new("APP".to_string(), "TOKEN".to_string());
    assert_eq!(s.complete_handshake(101, 7), Ok(()));
    s
}

#[test]
fn new_socket_is_disconnected() {
    let s: MarketDataSocket<u32> = MarketDataSocket::new("APP".to_string(), "TOKEN".to_string());
    assert!(!s.is_connected());
    assert_eq!(s.authorization(), "APP:TOKEN");
}

#[test]
fn connect_twice_is_already_connected() {
    let mut s = connected();
    assert_eq!(
        s.handshake_request(MARKET_DATA_URL).err(),
        Some(FyersError::AlreadyConnected)
    );
    assert_eq!(s.complete_handshake(101, 8), Err(FyersError::AlreadyConnected));
    assert!(s.is_connected());
    assert_eq!(s.stream_mut().map(|x| *x), Some(7));
}

#[test]
fn subscribe_before_connect_is_not_connected() {
    let s: MarketDataSocket<u32> = MarketDataSocket::new("APP".to_string(), "TOKEN".to_string());
    assert_eq!(
        s.subscribe(&["A", "B"], SubscriptionMode::Depth),
        Err(FyersError::NotConnected)
    );
    assert_eq!(s.unsubscribe(&["A", "B"]), Err(FyersError::NotConnected));
    assert_eq!(s.subscribe(&[], SubscriptionMode::Quote), Err(FyersError::NotConnected));
    assert_eq!(s.start_listening(), Err(FyersError::NotConnected));
}

#[test]
fn refused_handshake_stays_disconnected() {
    let mut s: MarketDataSocket<u32> =
        MarketDataSocket::new("APP".to_string(), "TOKEN".to_string());
    assert_eq!(s.complete_handshake(403, 1), Err(FyersError::HandshakeFailed(403)));
    assert_eq!(s.complete_handshake(200, 1), Err(FyersError::HandshakeFailed(200)));
    assert_eq!(s.complete_handshake(100, 1), Err(FyersError::HandshakeFailed(100)));
    assert_eq!(s.complete_handshake(102, 1), Err(FyersError::HandshakeFailed(102)));
    assert!(!s.is_connected());
    assert_eq!(s.unsubscribe(&["A"]), Err(FyersError::NotConnected));
    assert_eq!(s.complete_handshake(101, 2), Ok(()));
    assert!(s.is_connected());
}

#[test]
fn subscribe_depth_encodes_wire_message() {
    let s = connected();
    assert_eq!(
        s.subscribe(&["A", "B"], SubscriptionMode::Depth).unwrap(),
        r#"{"type":1,"data":{"subs":1,"symbols":["A","B"],"mode":6,"channel":1}}"#
    );
}

#[test]
fn unsubscribe_encodes_negative_subs() {
    let s = connected();
    assert_eq!(
        s.unsubscribe(&["A", "B"]).unwrap(),
        r#"{"type":1,"data":{"subs":-1,"symbols":["A","B"],"mode":1,"channel":1}}"#
    );
}

#[test]
fn empty_symbol_list_is_invalid_argument() {
    let s = connected();
    assert_eq!(s.subscribe(&[], SubscriptionMode::Quote), Err(FyersError::InvalidArgument));
    assert_eq!(s.unsubscribe(&[]), Err(FyersError::InvalidArgument));
}

#[test]
fn symbols_are_escaped_as_json_strings() {
    let s = connected();
    assert_eq!(
        s.subscribe(&["NSE:\"X\"\\Y"], SubscriptionMode::Ping).unwrap(),
        r#"{"type":1,"data":{"subs":1,"symbols":["NSE:\"X\"\\Y"],"mode":0,"channel":1}}"#
    );
}

#[test]
fn every_mode_encodes_its_ordinal() {
    let s = connected();
    let modes = [
        SubscriptionMode::Ping,
        SubscriptionMode::Quote,
        SubscriptionMode::ExtendedQuote,
        SubscriptionMode::DailyQuote,
        SubscriptionMode::MarketLevel,
        SubscriptionMode::Ohlcv,
        SubscriptionMode::Depth,
        SubscriptionMode::All,
        SubscriptionMode::Response,
    ];
    for (i, m) in modes.iter().enumerate() {
        assert_eq!(m.code(), i as i32);
        let text = s.subscribe(&["S"], *m).unwrap();
        assert!(text.contains(&format!("\"mode\":{},", i)), "{}", text);
    }
}

#[test]
fn ping_is_answered_with_same_payload() {
    let mut s = connected();
    let a = s.on_event(ListenEvent::<u32>::Control(ControlFrame::Ping(vec![1, 2, 3])));
    assert!(matches!(a, Action::SendPong(ref p) if p == &vec![1, 2, 3]));
    assert!(s.is_connected());
    let b = s.on_event(ListenEvent::<u32>::Control(ControlFrame::Ping(vec![])));
    assert!(matches!(b, Action::SendPong(ref p) if p.is_empty()));
}

#[test]
fn undecodable_frame_is_skipped_and_next_delivered() {
    let mut s = connected();
    let a = s.on_event(ListenEvent::<u32>::DecodeFailed("bad wire type".to_string()));
    assert!(matches!(a, Action::Report(Diagnostic::DecodeFailed(ref e)) if e == "bad wire type"));
    assert!(s.is_connected());
    let b = s.on_event(ListenEvent::Decoded(42u32));
    assert!(matches!(b, Action::Deliver(42)));
}

#[test]
fn close_frame_ends_loop_and_allows_reconnect() {
    let mut s = connected();
    let a = s.on_event(ListenEvent::<u32>::Control(ControlFrame::Close(Some("bye".to_string()))));
    assert!(matches!(a, Action::Finish));
    assert!(!s.is_connected());
    assert!(s.handshake_request(MARKET_DATA_URL).is_ok());
    assert_eq!(s.complete_handshake(101, 9), Ok(()));
    assert!(s.is_connected());
}

#[test]
fn end_of_stream_ends_loop() {
    let mut s = connected();
    assert!(matches!(s.on_event(ListenEvent::<u32>::EndOfStream), Action::Finish));
    assert!(!s.is_connected());
}

#[test]
fn transport_errors_are_reported_and_loop_goes_on() {
    let mut s = connected();
    let a = s.on_event(ListenEvent::<u32>::ReceiveFailed("reset".to_string()));
    assert!(matches!(a, Action::Report(Diagnostic::TransportError(ref e)) if e == "reset"));
    let b = s.on_event(ListenEvent::<u32>::SendFailed("broken pipe".to_string()));
    assert!(matches!(b, Action::Report(Diagnostic::TransportError(ref e)) if e == "broken pipe"));
    assert!(s.is_connected());
}

#[test]
fn text_frames_other_than_pong_are_reported() {
    let mut s = connected();
    for t in ["pong", "PONG", "PoNg"] {
        let a = s.on_event(ListenEvent::<u32>::Control(ControlFrame::Text(t.to_string())));
        assert!(matches!(a, Action::Continue), "{}", t);
    }
    for t in ["hello", "pong ", "pon", ""] {
        let a = s.on_event(ListenEvent::<u32>::Control(ControlFrame::Text(t.to_string())));
        assert!(matches!(a, Action::Report(Diagnostic::UnexpectedText(ref x)) if x == t), "{}", t);
    }
    let u = s.on_event(ListenEvent::<u32>::Control(ControlFrame::Unknown));
    assert!(matches!(u, Action::Continue));
    assert!(s.is_connected());
}

#[test]
fn close_hands_back_the_stream() {
    let mut s = connected();
    assert_eq!(s.close(), Some(7));
    assert!(!s.is_connected());
    assert_eq!(s.close(), None);
    assert!(s.stream_mut().is_none());
}

#[test]
fn stream_mut_writes_through() {
    let mut s = connected();
    if let Some(x) = s.stream_mut() {
        *x = 11;
    }
    assert_eq!(s.close(), Some(11));
}

#[test]
fn handshake_request_for_market_data_endpoint() {
    let s: MarketDataSocket<u32> = MarketDataSocket::new("APP".to_string(), "TOKEN".to_string());
    let req = s.handshake_request(MARKET_DATA_URL).unwrap();
    assert_eq!(req.uri, "wss://socket.fyers.in/hsm/v1-5/prod");
    assert_eq!(req.host, "socket.fyers.in");
    assert_eq!(req.authorization, "APP:TOKEN");
    assert_eq!(req.key.len(), 24);
    assert!(req.key.ends_with("=="));
    assert!(req.key[..22]
        .chars()
        .all(|c| c.is_ascii_alphanumeric() || c == '+' || c == '/'));
    let h = req.headers();
    let expected = [
        ("Host", "socket.fyers.in"),
        ("Authorization", "APP:TOKEN"),
        ("Sec-WebSocket-Version", "13"),
        ("Sec-WebSocket-Key", req.key.as_str()),
        ("Connection", "Upgrade"),
        ("Upgrade", "websocket"),
    ];
    assert_eq!(h.len(), expected.len());
    for (got, want) in h.iter().zip(expected.iter()) {
        assert_eq!(got.0, want.0);
        assert_eq!(got.1, want.1);
    }
}

#[test]
fn handshake_request_rejects_url_without_host() {
    let s: MarketDataSocket<u32> = MarketDataSocket::new("APP".to_string(), "TOKEN".to_string());
    assert_eq!(s.handshake_request("not a url").err(), Some(FyersError::InvalidUrl));
    assert_eq!(s.handshake_request("unix:/run/foo.socket").err(), Some(FyersError::InvalidUrl));
}

#[test]
fn handshake_keys_are_fresh() {
    let s: MarketDataSocket<u32> = MarketDataSocket::new("APP".to_string(), "TOKEN".to_string());
    let a = s.handshake_request(MARKET_DATA_URL).unwrap();
    let b = s.handshake_request(MARKET_DATA_URL).unwrap();
    assert_ne!(a.key, b.key);
}

#[test]
fn receive_loop_run_delivers_in_order_until_close() {
    let mut s = connected();
    let events = vec![
        ListenEvent::Decoded(1u32),
        ListenEvent::DecodeFailed("truncated".to_string()),
        ListenEvent::Control(ControlFrame::Ping(vec![5])),
        ListenEvent::ReceiveFailed("timeout".to_string()),
        ListenEvent::Decoded(2u32),
        ListenEvent::Control(ControlFrame::Close(None)),
        ListenEvent::Decoded(3u32),
    ];
    let mut delivered = Vec::new();
    let mut pongs = Vec::new();
    let mut reports = 0;
    for e in events {
        match s.on_event(e) {
            Action::Deliver(m) => delivered.push(m),
            Action::SendPong(p) => pongs.push(p),
            Action::Report(_) => reports += 1,
            Action::Continue => {}
            Action::Finish => break,
        }
    }
    assert_eq!(delivered, vec![1, 2]);
    assert_eq!(pongs, vec![vec![5u8]]);
    assert_eq!(reports, 2);
    assert!(!s.is_connected());
}
