use vstd::prelude::*;

verus! {

/// Payload of the endpoint-lookup response: the socket URL to connect to.
pub struct TbtwsData {
    pub socket_url: String,
}

/// Endpoint-lookup response.
pub struct TbtwsResponse {
    pub data: TbtwsData,
}

/// Feed granularity of a subscription. The wire value of each mode is its
/// ordinal, fixed by the remote service.
#[derive(Clone, Copy, Debug, PartialEq, Eq, Structural)]
pub enum SubscriptionMode {
    Ping,
    Quote,
    ExtendedQuote,
    DailyQuote,
    MarketLevel,
    Ohlcv,
    Depth,
    All,
    Response,
}

/// The wire value of a mode: its position in the enumeration.
pub open spec fn mode_code(m: SubscriptionMode) -> int {
    match m {
        SubscriptionMode::Ping => 0,
        SubscriptionMode::Quote => 1,
        SubscriptionMode::ExtendedQuote => 2,
        SubscriptionMode::DailyQuote => 3,
        SubscriptionMode::MarketLevel => 4,
        SubscriptionMode::Ohlcv => 5,
        SubscriptionMode::Depth => 6,
        SubscriptionMode::All => 7,
        SubscriptionMode::Response => 8,
    }
}

/// The mode whose wire value is `c`, if there is one.
pub open spec fn mode_of_code(c: int) -> Option<SubscriptionMode> {
    if c == 0 {
        Some(SubscriptionMode::Ping)
    } else if c == 1 {
        Some(SubscriptionMode::Quote)
    } else if c == 2 {
        Some(SubscriptionMode::ExtendedQuote)
    } else if c == 3 {
        Some(SubscriptionMode::DailyQuote)
    } else if c == 4 {
        Some(SubscriptionMode::MarketLevel)
    } else if c == 5 {
        Some(SubscriptionMode::Ohlcv)
    } else if c == 6 {
        Some(SubscriptionMode::Depth)
    } else if c == 7 {
        Some(SubscriptionMode::All)
    } else if c == 8 {
        Some(SubscriptionMode::Response)
    } else {
        None
    }
}

impl SubscriptionMode {
    /// The wire value sent in the `mode` field.
    pub fn code(self) -> (r: i32)
        ensures
            r as int == mode_code(self),
    {
        match self {
            SubscriptionMode::Ping => 0,
            SubscriptionMode::Quote => 1,
            SubscriptionMode::ExtendedQuote => 2,
            SubscriptionMode::DailyQuote => 3,
            SubscriptionMode::MarketLevel => 4,
            SubscriptionMode::Ohlcv => 5,
            SubscriptionMode::Depth => 6,
            SubscriptionMode::All => 7,
            SubscriptionMode::Response => 8,
        }
    }
}

/// The `data` object of a subscription control message.
pub struct SubscriptionData<'a> {
    /// `1` to subscribe, `-1` to unsubscribe.
    pub subs: i32,
    pub symbols: &'a [&'a str],
    pub mode: i32,
    /// Routing identifier that the remote protocol requires.
    pub channel: i32,
}

/// A subscription control message: `{"type": .., "data": {..}}`.
pub struct SubscriptionRequest<'a> {
    pub request_type: i32,
    pub data: SubscriptionData<'a>,
}

impl<'a> SubscriptionData<'a> {
    /// The symbols as character sequences.
    pub open spec fn symbols_view(&self) -> Seq<Seq<char>> {
        self.symbols@.map_values(|s: &str| s@)
    }
}

/// Every mode's wire value lies in `0..=8` and reads back as the same mode.
pub proof fn lemma_mode_code_round_trip(m: SubscriptionMode)
    ensures
        0 <= mode_code(m) <= 8,
        mode_of_code(mode_code(m)) == Some(m),
{
}

} // verus!
