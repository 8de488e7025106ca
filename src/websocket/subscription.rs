//! Subscription codec: builds subscribe and unsubscribe control messages and
//! writes them in their JSON wire form.
use vstd::prelude::*;
use crate::models::websocket::{
    lemma_mode_code_round_trip,
    mode_code,
    mode_of_code,
    SubscriptionData,
    SubscriptionMode,
    SubscriptionRequest,
};
use crate::text::{decimal, digits, hex_alphabet, json_array, json_string_array, push_decimal};

verus! {

/// Value of the `type` field of every subscription control message.
pub const REQUEST_TYPE: i32 = 1;

/// Value of the `channel` field: a routing identifier fixed by the remote protocol.
pub const CHANNEL: i32 = 1;

/// `subs` value of a subscribe request.
pub const SUBSCRIBE: i32 = 1;

/// `subs` value of an unsubscribe request.
pub const UNSUBSCRIBE: i32 = -1;

/// Mode sent with an unsubscribe request, where the mode carries no meaning.
pub const UNSUBSCRIBE_MODE: SubscriptionMode = SubscriptionMode::Quote;

/// The request that subscribes `symbols` in mode `m`.
pub open spec fn subscribe_spec<'a>(symbols: &'a [&'a str], m: SubscriptionMode) -> SubscriptionRequest<'a> {
    SubscriptionRequest {
        request_type: 1,
        data: SubscriptionData { subs: 1, symbols, mode: mode_code(m) as i32, channel: 1 },
    }
}

/// The request that unsubscribes `symbols`.
pub open spec fn unsubscribe_spec<'a>(symbols: &'a [&'a str]) -> SubscriptionRequest<'a> {
    SubscriptionRequest {
        request_type: 1,
        data: SubscriptionData {
            subs: -1i32,
            symbols,
            mode: mode_code(SubscriptionMode::Quote) as i32,
            channel: 1,
        },
    }
}

/// The JSON text of a subscription control message, without whitespace.
pub open spec fn request_json(r: SubscriptionRequest) -> Seq<char> {
    "{\"type\":"@ + decimal(r.request_type as int) + ",\"data\":{\"subs\":"@ + decimal(
        r.data.subs as int,
    ) + ",\"symbols\":"@ + json_array(r.data.symbols_view()) + ",\"mode\":"@ + decimal(
        r.data.mode as int,
    ) + ",\"channel\":"@ + decimal(r.data.channel as int) + "}}"@
}

/// Builds the request that subscribes `symbols` in mode `mode`.
pub fn encode_subscribe<'a>(symbols: &'a [&'a str], mode: SubscriptionMode) -> (r: SubscriptionRequest<'a>)
    ensures
        r == subscribe_spec(symbols, mode),
{
    SubscriptionRequest {
        request_type: REQUEST_TYPE,
        data: SubscriptionData { subs: SUBSCRIBE, symbols, mode: mode.code(), channel: CHANNEL },
    }
}

/// Builds the request that unsubscribes `symbols`.
pub fn encode_unsubscribe<'a>(symbols: &'a [&'a str]) -> (r: SubscriptionRequest<'a>)
    ensures
        r == unsubscribe_spec(symbols),
{
    SubscriptionRequest {
        request_type: REQUEST_TYPE,
        data: SubscriptionData {
            subs: UNSUBSCRIBE,
            symbols,
            mode: UNSUBSCRIBE_MODE.code(),
            channel: CHANNEL,
        },
    }
}

impl<'a> SubscriptionRequest<'a> {
    /// The JSON text sent for this request.
    pub fn to_json(&self) -> (r: String)
        ensures
            r@ == request_json(*self),
    {
        let mut out = String::new();
        out.append("{\"type\":");
        push_decimal(&mut out, self.request_type as i64);
        out.append(",\"data\":{\"subs\":");
        push_decimal(&mut out, self.data.subs as i64);
        out.append(",\"symbols\":");
        let symbols = json_string_array(self.data.symbols);
        out.append(symbols.as_str());
        out.append(",\"mode\":");
        push_decimal(&mut out, self.data.mode as i64);
        out.append(",\"channel\":");
        push_decimal(&mut out, self.data.channel as i64);
        out.append("}}");
        assert(out@ =~= request_json(*self));
        out
    }
}

/// For every mode, the `mode` field of a subscribe request is the mode's
/// ordinal, it reads back as the same mode, and its wire text is that one digit.
pub proof fn lemma_mode_on_the_wire<'a>(symbols: &'a [&'a str], m: SubscriptionMode)
    ensures
        subscribe_spec(symbols, m).data.mode as int == mode_code(m),
        mode_of_code(subscribe_spec(symbols, m).data.mode as int) == Some(m),
        decimal(subscribe_spec(symbols, m).data.mode as int) == seq![hex_alphabet()[mode_code(m)]],
{
    lemma_mode_code_round_trip(m);
    reveal_with_fuel(digits, 1);
}

} // verus!
