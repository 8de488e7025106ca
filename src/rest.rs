//! The pure parts of the REST operations: request URLs and bodies, and the
//! reading of the uniform response envelope `{ s, code, message, .. }`.
use vstd::prelude::*;
use crate::error::FyersError;
use crate::text::{json_quoted, json_string};

verus! {

/// Base URL of the account and order API.
pub const FYERS_API_BASE_URL: &'static str = "https://api-t1.fyers.in/api/v3";

/// Base URL of the market data API.
pub const DATA_API_BASE_URL: &'static str = "https://api-t1.fyers.in/data";

/// Message of the API error for an envelope that carries none.
pub const UNKNOWN_ERROR: &'static str = "Unknown error";

/// View of an optional string.
pub open spec fn opt_view(o: Option<&str>) -> Option<Seq<char>> {
    match o {
        Some(s) => Some(s@),
        None => None,
    }
}

/// The error that an envelope stands for, if any: a status other than `"ok"`
/// is an API error with the envelope's code (0 when absent) and message
/// (`UNKNOWN_ERROR` when absent). An envelope without a status is no error.
pub open spec fn envelope_error(s: Option<String>, code: Option<i64>, message: Option<String>) -> Option<
    (Seq<char>, i64, Seq<char>),
> {
    match s {
        Some(st) => if st@ == "ok"@ {
            None
        } else {
            Some(
                (
                    st@,
                    match code {
                        Some(c) => c,
                        None => 0,
                    },
                    match message {
                        Some(m) => m@,
                        None => UNKNOWN_ERROR@,
                    },
                ),
            )
        },
        None => None,
    }
}

/// Whether a status string is `"ok"`.
pub fn is_ok_status(s: &String) -> (r: bool)
    ensures
        r == (s@ == "ok"@),
{
    let ok = String::from_str("ok");
    *s == ok
}

/// Reads a response envelope: `Ok` unless its status is present and not
/// `"ok"`, in which case the uniform API error.
pub fn check_envelope(s: Option<String>, code: Option<i64>, message: Option<String>) -> (r: Result<
    (),
    FyersError,
>)
    ensures
        match envelope_error(s, code, message) {
            None => r is Ok,
            Some((st, c, m)) => r matches Err(FyersError::ApiError { s: es, code: ec, message: em })
                && es@ == st && ec == c && em@ == m,
        },
{
    match s {
        None => Ok(()),
        Some(st) => {
            if is_ok_status(&st) {
                Ok(())
            } else {
                let c = match code {
                    Some(c) => c,
                    None => 0,
                };
                let m = match message {
                    Some(m) => m,
                    None => String::from_str(UNKNOWN_ERROR),
                };
                Err(FyersError::ApiError { s: st, code: c, message: m })
            }
        },
    }
}

/// `base` followed by `path`.
pub fn join_url(base: &str, path: &str) -> (r: String)
    ensures
        r@ == base@ + path@,
{
    let mut out = String::from_str(base);
    out.append(path);
    out
}

/// URL of an account or order resource, `path` starting with `/`.
pub fn api_url(path: &str) -> (r: String)
    ensures
        r@ == FYERS_API_BASE_URL@ + path@,
{
    join_url(FYERS_API_BASE_URL, path)
}

/// The history query URL.
pub open spec fn history_url_spec(
    symbol: Seq<char>,
    resolution: Seq<char>,
    date_format: Seq<char>,
    range_from: Seq<char>,
    range_to: Seq<char>,
    cont_flag: Seq<char>,
    oi_flag: Seq<char>,
) -> Seq<char> {
    DATA_API_BASE_URL@ + "/history?symbol="@ + symbol + "&resolution="@ + resolution
        + "&date_format="@ + date_format + "&range_from="@ + range_from + "&range_to="@ + range_to
        + "&cont_flag="@ + cont_flag + "&oi_Flag="@ + oi_flag
}

/// URL of the historical candles of one symbol.
pub fn history_url(
    symbol: &str,
    resolution: &str,
    date_format: &str,
    range_from: &str,
    range_to: &str,
    cont_flag: &str,
    oi_flag: &str,
) -> (r: String)
    ensures
        r@ == history_url_spec(
            symbol@,
            resolution@,
            date_format@,
            range_from@,
            range_to@,
            cont_flag@,
            oi_flag@,
        ),
{
    let mut out = String::from_str(DATA_API_BASE_URL);
    out.append("/history?symbol=");
    out.append(symbol);
    out.append("&resolution=");
    out.append(resolution);
    out.append("&date_format=");
    out.append(date_format);
    out.append("&range_from=");
    out.append(range_from);
    out.append("&range_to=");
    out.append(range_to);
    out.append("&cont_flag=");
    out.append(cont_flag);
    out.append("&oi_Flag=");
    out.append(oi_flag);
    out
}

/// URL of the full quotes of one or more comma-separated symbols.
pub fn quotes_url(symbols: &str) -> (r: String)
    ensures
        r@ == DATA_API_BASE_URL@ + "/quotes?symbols="@ + symbols@,
{
    let mut out = String::from_str(DATA_API_BASE_URL);
    out.append("/quotes?symbols=");
    out.append(symbols);
    out
}

/// URL of the market depth of one symbol.
pub fn depth_url(symbol: &str, ohlcv_flag: &str) -> (r: String)
    ensures
        r@ == DATA_API_BASE_URL@ + "/depth?symbol="@ + symbol@ + "&ohlcv_flag="@ + ohlcv_flag@,
{
    let mut out = String::from_str(DATA_API_BASE_URL);
    out.append("/depth?symbol=");
    out.append(symbol);
    out.append("&ohlcv_flag=");
    out.append(ohlcv_flag);
    out
}

/// The option chain query URL: the optional parameters appear only when given.
pub open spec fn option_chain_url_spec(
    symbol: Seq<char>,
    strikecount: Option<Seq<char>>,
    timestamp: Option<Seq<char>>,
) -> Seq<char> {
    DATA_API_BASE_URL@ + "/options-chain-v3?symbol="@ + symbol + match strikecount {
        Some(sc) => "&strikecount="@ + sc,
        None => Seq::empty(),
    } + match timestamp {
        Some(ts) => "&timestamp="@ + ts,
        None => Seq::empty(),
    }
}

/// URL of the option chain of a symbol.
pub fn option_chain_url(symbol: &str, strikecount: Option<&str>, timestamp: Option<&str>) -> (r:
    String)
    ensures
        r@ == option_chain_url_spec(symbol@, opt_view(strikecount), opt_view(timestamp)),
{
    let mut out = String::from_str(DATA_API_BASE_URL);
    out.append("/options-chain-v3?symbol=");
    out.append(symbol);
    if let Some(sc) = strikecount {
        out.append("&strikecount=");
        out.append(sc);
    }
    if let Some(ts) = timestamp {
        out.append("&timestamp=");
        out.append(ts);
    }
    assert(out@ =~= option_chain_url_spec(symbol@, opt_view(strikecount), opt_view(timestamp)));
    out
}

/// The query string of the order book request: `id` and `order_tag`, each only
/// when given, joined by `&` after a `?`; empty when neither is given.
pub open spec fn orders_query_spec(id: Option<Seq<char>>, order_tag: Option<Seq<char>>) -> Seq<
    char,
> {
    match (id, order_tag) {
        (None, None) => Seq::empty(),
        (Some(i), None) => "?id="@ + i,
        (None, Some(t)) => "?order_tag="@ + t,
        (Some(i), Some(t)) => "?id="@ + i + "&order_tag="@ + t,
    }
}

/// URL of the order book, filtered by order id and tag when given.
pub fn orders_url(id: Option<&str>, order_tag: Option<&str>) -> (r: String)
    ensures
        r@ == FYERS_API_BASE_URL@ + "/orders"@ + orders_query_spec(
            opt_view(id),
            opt_view(order_tag),
        ),
{
    let mut out = String::from_str(FYERS_API_BASE_URL);
    out.append("/orders");
    match id {
        Some(i) => {
            out.append("?id=");
            out.append(i);
            if let Some(t) = order_tag {
                out.append("&order_tag=");
                out.append(t);
            }
        },
        None => {
            if let Some(t) = order_tag {
                out.append("?order_tag=");
                out.append(t);
            }
        },
    }
    assert(out@ =~= FYERS_API_BASE_URL@ + "/orders"@ + orders_query_spec(
        opt_view(id),
        opt_view(order_tag),
    ));
    out
}

/// The JSON body of a market data request.
pub open spec fn market_data_body_spec(symbols: Seq<char>, data_type: Seq<char>) -> Seq<char> {
    "{\"symbols\":"@ + json_quoted(symbols) + ",\"dataType\":"@ + json_quoted(data_type) + "}"@
}

/// Body of a market data request: `{"symbols": .., "dataType": ..}`.
pub fn market_data_body(symbols: &str, data_type: &str) -> (r: String)
    ensures
        r@ == market_data_body_spec(symbols@, data_type@),
{
    let mut out = String::from_str("{\"symbols\":");
    let s = json_string(symbols);
    out.append(s.as_str());
    out.append(",\"dataType\":");
    let d = json_string(data_type);
    out.append(d.as_str());
    out.append("}");
    out
}

} // verus!
