use fyers_rust::auth::{
    app_id_hash, generate_auth_url, token_from_response, token_http_failure, token_request_body,
    Credentials,
};
use fyers_rust::error::FyersError;
use fyers_rust::models::{Profile, ProfileResponse, SubscriptionMode};
use fyers_rust::rest::{
    api_url, check_envelope, depth_url, history_url, market_data_body, option_chain_url,
    orders_url, quotes_url,
};
use fyers_rust::text::{decimal_string, hex_string, json_string_array};
use fyers_rust::websocket::frame::{classify, is_pong, Classified, ControlFrame, RawFrame};
use fyers_rust::websocket::subscription::{encode_subscribe, encode_unsubscribe};

#[test]
fn subscription_request_json() {
    let syms = ["NSE:NIFTY50-INDEX", "MCX:COPPER25SEPFUT"];
    let r = encode_subscribe(&syms, SubscriptionMode::Ohlcv);
    assert_eq!(r.request_type, 1);
    assert_eq!(r.data.subs, 1);
    assert_eq!(r.data.mode, 5);
    assert_eq!(r.data.channel, 1);
    assert_eq!(
        r.to_json(),
        r#"{"type":1,"data":{"subs":1,"symbols":["NSE:NIFTY50-INDEX","MCX:COPPER25SEPFUT"],"mode":5,"channel":1}}"#
    );
    let u = encode_unsubscribe(&syms);
    assert_eq!(u.data.subs, -1);
    assert_eq!(u.data.mode, 1);
}

#[test]
fn decimal_text() {
    assert_eq!(decimal_string(0), "0");
    assert_eq!(decimal_string(6), "6");
    assert_eq!(decimal_string(-1), "-1");
    assert_eq!(decimal_string(1200), "1200");
    assert_eq!(decimal_string(i64::MAX), "9223372036854775807");
    assert_eq!(decimal_string(i64::MIN), "-9223372036854775808");
}

#[test]
fn hex_text() {
    assert_eq!(hex_string(&[]), "");
    assert_eq!(hex_string(&[0x00, 0x0f, 0xa5, 0xff]), "000fa5ff");
}

#[test]
fn json_arrays() {
    assert_eq!(json_string_array(&[]), "[]");
    assert_eq!(json_string_array(&["a"]), r#"["a"]"#);
    assert_eq!(json_string_array(&["a", "b\nc"]), r#"["a","b\nc"]"#);
    assert_eq!(
        json_string_array(&["q\"b\\s\u{8}\t\u{c}\r\u{1}\u{1f} é/"]),
        r#"["q\"b\\s\b\t\f\r\u0001\u001f é/"]"#
    );
}

#[test]
fn classify_frames() {
    assert!(matches!(classify(RawFrame::Binary(vec![9])), Classified::Binary(ref b) if b == &vec![9]));
    assert!(matches!(
        classify(RawFrame::Ping(vec![1])),
        Classified::Control(ControlFrame::Ping(ref p)) if p == &vec![1]
    ));
    assert!(matches!(
        classify(RawFrame::Text("x".to_string())),
        Classified::Control(ControlFrame::Text(ref t)) if t == "x"
    ));
    assert!(matches!(
        classify(RawFrame::Close(None)),
        Classified::Control(ControlFrame::Close(None))
    ));
    assert!(matches!(classify(RawFrame::Pong(vec![1])), Classified::Control(ControlFrame::Unknown)));
    assert!(matches!(classify(RawFrame::Other), Classified::Control(ControlFrame::Unknown)));
}

#[test]
fn pong_text_ignores_ascii_case() {
    assert!(is_pong("pong"));
    assert!(is_pong("Pong"));
    assert!(!is_pong("ping"));
    assert!(!is_pong("pongs"));
}

#[test]
fn credentials_header() {
    let c = Credentials::new("XY123-100".to_string(), "eyJ0".to_string());
    assert_eq!(c.app_id(), "XY123-100");
    assert_eq!(c.access_token(), "eyJ0");
    assert_eq!(c.authorization(), "XY123-100:eyJ0");
}

#[test]
fn auth_url() {
    assert_eq!(
        generate_auth_url("CID", "https://example.com/cb", "s1"),
        "https://api-t1.fyers.in/api/v3/generate-authcode?client_id=CID&redirect_uri=https://example.com/cb&response_type=code&state=s1"
    );
}

#[test]
fn app_id_hash_is_hex_sha256_of_pair() {
    assert_eq!(
        app_id_hash("client", "secret"),
        "3ed7c177466b2fec4af181236e47cc2bbe9fb77fc6e6e31ff18507a2b8d6028e"
    );
    assert_eq!(
        app_id_hash("é", "ß"),
        "9fe5e4c12b70961d67bdb57ce3a624af53e07f5f5132d3bc7aee67b3dc1e5b9c"
    );
}

#[test]
fn token_request_json() {
    assert_eq!(
        token_request_body("abc", "code\"1"),
        r#"{"grant_type":"authorization_code","appIdHash":"abc","code":"code\"1"}"#
    );
}

#[test]
fn token_response_outcomes() {
    assert_eq!(
        token_from_response("ok".to_string(), 200, "".to_string(), Some("T".to_string())),
        Ok("T".to_string())
    );
    assert_eq!(
        token_from_response("ok".to_string(), 200, "".to_string(), None),
        Err(FyersError::AuthError(
            "API returned ok, but no access token was found".to_string()
        ))
    );
    assert_eq!(
        token_from_response("error".to_string(), -413, "bad code".to_string(), Some("T".to_string())),
        Err(FyersError::ApiError {
            s: "error".to_string(),
            code: -413,
            message: "bad code".to_string()
        })
    );
    assert_eq!(
        token_http_failure("400 Bad Request", "{}"),
        FyersError::AuthError("Token validation failed with status: 400 Bad Request \n Body: {}".to_string())
    );
}

#[test]
fn envelope_outcomes() {
    assert_eq!(check_envelope(Some("ok".to_string()), Some(5), None), Ok(()));
    assert_eq!(check_envelope(None, Some(-1), Some("x".to_string())), Ok(()));
    assert_eq!(
        check_envelope(Some("error".to_string()), None, None),
        Err(FyersError::ApiError {
            s: "error".to_string(),
            code: 0,
            message: "Unknown error".to_string()
        })
    );
    assert_eq!(
        check_envelope(Some("OK".to_string()), Some(-16), Some("invalid token".to_string())),
        Err(FyersError::ApiError {
            s: "OK".to_string(),
            code: -16,
            message: "invalid token".to_string()
        })
    );
}

#[test]
fn rest_urls() {
    assert_eq!(api_url("/profile"), "https://api-t1.fyers.in/api/v3/profile");
    assert_eq!(
        history_url("NSE:SBIN-EQ", "5", "1", "2022-01-01", "2022-01-02", "0", "1"),
        "https://api-t1.fyers.in/data/history?symbol=NSE:SBIN-EQ&resolution=5&date_format=1&range_from=2022-01-01&range_to=2022-01-02&cont_flag=0&oi_Flag=1"
    );
    assert_eq!(
        quotes_url("NSE:SBIN-EQ,NSE:TCS-EQ"),
        "https://api-t1.fyers.in/data/quotes?symbols=NSE:SBIN-EQ,NSE:TCS-EQ"
    );
    assert_eq!(
        depth_url("NSE:SBIN-EQ", "1"),
        "https://api-t1.fyers.in/data/depth?symbol=NSE:SBIN-EQ&ohlcv_flag=1"
    );
    assert_eq!(
        option_chain_url("NSE:TCS-EQ", None, None),
        "https://api-t1.fyers.in/data/options-chain-v3?symbol=NSE:TCS-EQ"
    );
    assert_eq!(
        option_chain_url("NSE:TCS-EQ", Some("3"), Some("1700000000")),
        "https://api-t1.fyers.in/data/options-chain-v3?symbol=NSE:TCS-EQ&strikecount=3&timestamp=1700000000"
    );
    assert_eq!(
        option_chain_url("NSE:TCS-EQ", None, Some("17")),
        "https://api-t1.fyers.in/data/options-chain-v3?symbol=NSE:TCS-EQ&timestamp=17"
    );
}

#[test]
fn orders_url_query() {
    assert_eq!(orders_url(None, None), "https://api-t1.fyers.in/api/v3/orders");
    assert_eq!(orders_url(Some("42"), None), "https://api-t1.fyers.in/api/v3/orders?id=42");
    assert_eq!(
        orders_url(None, Some("t1")),
        "https://api-t1.fyers.in/api/v3/orders?order_tag=t1"
    );
    assert_eq!(
        orders_url(Some("42"), Some("t1")),
        "https://api-t1.fyers.in/api/v3/orders?id=42&order_tag=t1"
    );
}

#[test]
fn market_data_request_body() {
    assert_eq!(
        market_data_body("NSE:SBIN-EQ", "symbolData"),
        r#"{"symbols":"NSE:SBIN-EQ","dataType":"symbolData"}"#
    );
}

fn profile() -> Profile {
    Profile {
        name: "N".to_string(),
        display_name: None,
        fy_id: "F1".to_string(),
        image: None,
        email_id: "e@x".to_string(),
        pan: None,
        pin_change_date: None,
        pwd_change_date: None,
        mobile_number: Some("1".to_string()),
        totp: true,
        pwd_to_expire: 30,
        ddpi_enabled: false,
        mtf_enabled: false,
    }
}

#[test]
fn profile_envelope() {
    let ok = ProfileResponse { s: "ok".to_string(), code: 200, message: "".to_string(), data: profile() };
    let p = ok.into_profile().unwrap();
    assert_eq!(p.fy_id, "F1");
    assert_eq!(p.pwd_to_expire, 30);
    let bad = ProfileResponse { s: "error".to_string(), code: -8, message: "expired".to_string(), data: profile() };
    match bad.into_profile() {
        Err(FyersError::ApiError { s, code, message }) => {
            assert_eq!(s, "error");
            assert_eq!(code, -8);
            assert_eq!(message, "expired");
        }
        _ => panic!("expected an API error"),
    }
}
