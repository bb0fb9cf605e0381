//! Typed payloads of the data stream.
//!
//! The prices and quantities are of a type `N` that the caller picks, such as a
//! floating-point number. What is to be done with them, comparing them or
//! finding the middle between two, the caller supplies as a function.

use vstd::prelude::*;
use crate::error::AegisError;

verus! {

/// Aggregated trade from Binance.
///
/// Historical vs realtime differences:
/// - `event_time`: 0 in historical mode (not in CSV).
/// - `symbol`: empty string in historical mode.
/// - `normal_qty`: 0 in historical mode (RPI-adjusted qty, futures only).
///
/// Always use `transact_time` as the canonical timestamp.
#[derive(Debug, Clone)]
pub struct AggTrade<N> {
    /// Unix ms. Zero in historical mode.
    pub event_time: i64,
    /// Empty in historical mode.
    pub symbol: String,
    pub agg_trade_id: i64,
    pub price: N,
    /// Total quantity including RPI orders.
    pub quantity: N,
    /// Quantity excluding RPI orders (futures only). Zero in historical mode.
    pub normal_qty: N,
    pub first_trade_id: i64,
    pub last_trade_id: i64,
    /// Canonical timestamp in both modes. Equals the envelope `ts`.
    pub transact_time: i64,
    pub is_buyer_maker: bool,
}

impl<N> AggTrade<N> {
    /// `true` if this row came from a live WebSocket stream (event_time != 0).
    #[inline]
    pub fn is_realtime(&self) -> (res: bool)
        ensures
            res == (self.event_time != 0),
    {
        self.event_time != 0
    }
}

/// Individual raw trade.
#[derive(Debug, Clone)]
pub struct Trade<N> {
    pub id: i64,
    pub price: N,
    pub qty: N,
    pub quote_qty: N,
    /// Unix ms. Always valid.
    pub time: i64,
    pub is_buyer_maker: bool,
}

/// OHLCV kline / candlestick.
#[derive(Debug, Clone)]
pub struct Kline<N> {
    /// Unix ms. Always valid.
    pub open_time: i64,
    pub open: N,
    pub high: N,
    pub low: N,
    pub close: N,
    pub volume: N,
    pub close_time: i64,
    pub quote_volume: N,
    pub count: i64,
    pub taker_buy_volume: N,
    pub taker_buy_quote_volume: N,
}

/// Partial-depth order book update (realtime only, no CSV equivalent).
///
/// Binance USD-M futures streams carry `event_time` (`"T"`). Binance spot
/// streams do not: the server stores `last_update_id` in `event_time` as a
/// monotonic proxy. Use [`has_real_timestamp`][OrderBook::has_real_timestamp].
///
/// Bids and asks are incremental updates. Levels with a `quantity` of zero
/// indicate removal. Maintain a local book and apply each update.
#[derive(Debug, Clone)]
pub struct OrderBook<N> {
    pub last_update_id: i64,
    /// Unix ms for USD-M futures streams. `last_update_id` for spot streams.
    pub event_time: i64,
    pub bids: Vec<PriceLevel<N>>,
    pub asks: Vec<PriceLevel<N>>,
}

/// Whether `above` compares the prices of the levels by the order `gt`: it takes
/// any two of them and answers as `gt` does, no price is above one that is above
/// it, and a price that is not above another is not above what that one is not
/// above.
pub open spec fn ranks<N, F: Fn(&N, &N) -> bool>(
    above: F,
    gt: spec_fn(N, N) -> bool,
    levels: Seq<PriceLevel<N>>,
) -> bool {
    &&& forall|i: int, j: int|
        #![trigger levels[i], levels[j]]
        0 <= i < levels.len() && 0 <= j < levels.len() ==> {
            &&& above.requires((&levels[i].price, &levels[j].price))
            &&& forall|r: bool| #[trigger]
                above.ensures((&levels[i].price, &levels[j].price), r) ==> r == gt(
                    levels[i].price,
                    levels[j].price,
                )
            &&& gt(levels[i].price, levels[j].price) ==> !gt(levels[j].price, levels[i].price)
        }
    &&& forall|i: int, j: int, k: int|
        #![trigger levels[i], levels[j], levels[k]]
        0 <= i < levels.len() && 0 <= j < levels.len() && 0 <= k < levels.len() && !gt(
            levels[i].price,
            levels[j].price,
        ) && !gt(levels[j].price, levels[k].price) ==> !gt(levels[i].price, levels[k].price)
}

/// Whether level `i` is the first of those with the highest price.
pub open spec fn is_highest<N>(
    levels: Seq<PriceLevel<N>>,
    gt: spec_fn(N, N) -> bool,
    i: int,
) -> bool {
    &&& 0 <= i < levels.len()
    &&& forall|k: int| 0 <= k < levels.len() ==> !gt((#[trigger] levels[k]).price, levels[i].price)
    &&& forall|k: int| 0 <= k < i ==> gt(levels[i].price, (#[trigger] levels[k]).price)
}

/// Whether level `i` is the first of those with the lowest price.
pub open spec fn is_lowest<N>(
    levels: Seq<PriceLevel<N>>,
    gt: spec_fn(N, N) -> bool,
    i: int,
) -> bool {
    &&& 0 <= i < levels.len()
    &&& forall|k: int| 0 <= k < levels.len() ==> !gt(levels[i].price, (#[trigger] levels[k]).price)
    &&& forall|k: int| 0 <= k < i ==> gt((#[trigger] levels[k]).price, levels[i].price)
}

/// The first level with the highest price.
fn highest<'a, N, F: Fn(&N, &N) -> bool>(levels: &'a Vec<PriceLevel<N>>, above: &F) -> (res: Option<
    &'a PriceLevel<N>,
>)
    requires
        exists|gt: spec_fn(N, N) -> bool| #[trigger] ranks(*above, gt, levels@),
    ensures
        match res {
            Some(level) => forall|gt: spec_fn(N, N) -> bool| #[trigger]
                ranks(*above, gt, levels@) ==> exists|i: int| #[trigger]
                    is_highest(levels@, gt, i) && *level == levels[i],
            None => levels.len() == 0,
        },
        levels.len() == 0 ==> res is None,
{
    if levels.len() == 0 {
        return None;
    }
    let mut best: usize = 0;
    let mut j: usize = 1;
    while j < levels.len()
        invariant
            best < j <= levels.len(),
            exists|gt: spec_fn(N, N) -> bool| #[trigger] ranks(*above, gt, levels@),
            forall|gt: spec_fn(N, N) -> bool| #[trigger]
                ranks(*above, gt, levels@) ==> is_highest(
                    levels@.take(j as int),
                    gt,
                    best as int,
                ),
        decreases levels.len() - j,
    {
        let higher: bool = (*above)(&levels[j].price, &levels[best].price);
        proof {
            let next: int = if higher {
                j as int
            } else {
                best as int
            };
            assert forall|gt: spec_fn(N, N) -> bool| #[trigger]
                ranks(*above, gt, levels@) implies is_highest(
                levels@.take(j + 1),
                gt,
                next,
            ) by {
                let seen = levels@.take(j as int);
                let more = levels@.take(j + 1);
                assert(is_highest(seen, gt, best as int));
                assert(higher == gt(levels[j as int].price, levels[best as int].price));
                assert forall|k: int| 0 <= k < more.len() implies !gt(
                    (#[trigger] more[k]).price,
                    more[next].price,
                ) by {
                    if k < j {
                        assert(seen[k] == levels[k]);
                    }
                }
                assert forall|k: int| 0 <= k < next implies gt(
                    more[next].price,
                    (#[trigger] more[k]).price,
                ) by {
                    assert(seen[k] == levels[k]);
                }
            }
        }
        if higher {
            best = j;
        }
        j += 1;
    }
    assert(levels@.take(levels.len() as int) =~= levels@);
    Some(&levels[best])
}

/// The first level with the lowest price.
fn lowest<'a, N, F: Fn(&N, &N) -> bool>(levels: &'a Vec<PriceLevel<N>>, above: &F) -> (res: Option<
    &'a PriceLevel<N>,
>)
    requires
        exists|gt: spec_fn(N, N) -> bool| #[trigger] ranks(*above, gt, levels@),
    ensures
        match res {
            Some(level) => forall|gt: spec_fn(N, N) -> bool| #[trigger]
                ranks(*above, gt, levels@) ==> exists|i: int| #[trigger]
                    is_lowest(levels@, gt, i) && *level == levels[i],
            None => levels.len() == 0,
        },
        levels.len() == 0 ==> res is None,
{
    if levels.len() == 0 {
        return None;
    }
    let mut best: usize = 0;
    let mut j: usize = 1;
    while j < levels.len()
        invariant
            best < j <= levels.len(),
            exists|gt: spec_fn(N, N) -> bool| #[trigger] ranks(*above, gt, levels@),
            forall|gt: spec_fn(N, N) -> bool| #[trigger]
                ranks(*above, gt, levels@) ==> is_lowest(
                    levels@.take(j as int),
                    gt,
                    best as int,
                ),
        decreases levels.len() - j,
    {
        let lower: bool = (*above)(&levels[best].price, &levels[j].price);
        proof {
            let next: int = if lower {
                j as int
            } else {
                best as int
            };
            assert forall|gt: spec_fn(N, N) -> bool| #[trigger]
                ranks(*above, gt, levels@) implies is_lowest(
                levels@.take(j + 1),
                gt,
                next,
            ) by {
                let seen = levels@.take(j as int);
                let more = levels@.take(j + 1);
                assert(is_lowest(seen, gt, best as int));
                assert(lower == gt(levels[best as int].price, levels[j as int].price));
                assert forall|k: int| 0 <= k < more.len() implies !gt(
                    more[next].price,
                    (#[trigger] more[k]).price,
                ) by {
                    if k < j {
                        assert(seen[k] == levels[k]);
                    }
                }
                assert forall|k: int| 0 <= k < next implies gt(
                    (#[trigger] more[k]).price,
                    more[next].price,
                ) by {
                    assert(seen[k] == levels[k]);
                }
            }
        }
        if lower {
            best = j;
        }
        j += 1;
    }
    assert(levels@.take(levels.len() as int) =~= levels@);
    Some(&levels[best])
}

impl<N> OrderBook<N> {
    /// `true` when `event_time` is a real unix-ms timestamp.
    /// Values > 1_000_000_000_000 (year 2001) are real timestamps.
    #[inline]
    pub fn has_real_timestamp(&self) -> (res: bool)
        ensures
            res == (self.event_time > 1_000_000_000_000),
    {
        self.event_time > 1_000_000_000_000
    }

    /// Best bid (highest price, the first of equals), where `above` tells which
    /// of two prices is higher. `None` if the snapshot is empty.
    pub fn best_bid<F: Fn(&N, &N) -> bool>(&self, above: F) -> (res: Option<&PriceLevel<N>>)
        requires
            exists|gt: spec_fn(N, N) -> bool| #[trigger] ranks(above, gt, self.bids@),
        ensures
            match res {
                Some(level) => forall|gt: spec_fn(N, N) -> bool| #[trigger]
                    ranks(above, gt, self.bids@) ==> exists|i: int| #[trigger]
                        is_highest(self.bids@, gt, i) && *level == self.bids[i],
                None => self.bids.len() == 0,
            },
            self.bids.len() == 0 ==> res is None,
            res matches Some(level) ==> {
                &&& self.bids@.contains(*level)
                &&& forall|gt: spec_fn(N, N) -> bool, k: int|
                    #![trigger ranks(above, gt, self.bids@), self.bids[k]]
                    ranks(above, gt, self.bids@) && 0 <= k < self.bids.len() ==> !gt(
                        self.bids[k].price,
                        level.price,
                    )
            },
    {
        highest(&self.bids, &above)
    }

    /// Best ask (lowest price, the first of equals), where `above` tells which
    /// of two prices is higher. `None` if the snapshot is empty.
    pub fn best_ask<F: Fn(&N, &N) -> bool>(&self, above: F) -> (res: Option<&PriceLevel<N>>)
        requires
            exists|gt: spec_fn(N, N) -> bool| #[trigger] ranks(above, gt, self.asks@),
        ensures
            match res {
                Some(level) => forall|gt: spec_fn(N, N) -> bool| #[trigger]
                    ranks(above, gt, self.asks@) ==> exists|i: int| #[trigger]
                        is_lowest(self.asks@, gt, i) && *level == self.asks[i],
                None => self.asks.len() == 0,
            },
            self.asks.len() == 0 ==> res is None,
            res matches Some(level) ==> {
                &&& self.asks@.contains(*level)
                &&& forall|gt: spec_fn(N, N) -> bool, k: int|
                    #![trigger ranks(above, gt, self.asks@), self.asks[k]]
                    ranks(above, gt, self.asks@) && 0 <= k < self.asks.len() ==> !gt(
                        level.price,
                        self.asks[k].price,
                    )
            },
    {
        lowest(&self.asks, &above)
    }

    /// Mid-price between best bid and ask, as `midpoint` finds it from the two;
    /// `above` tells which of two prices is higher. `None` if either side is
    /// empty.
    pub fn mid_price<F: Fn(&N, &N) -> bool, G: FnOnce(&N, &N) -> N>(
        &self,
        above: F,
        midpoint: G,
    ) -> (res: Option<N>)
        requires
            exists|gt: spec_fn(N, N) -> bool| #[trigger] ranks(above, gt, self.bids@),
            exists|gt: spec_fn(N, N) -> bool| #[trigger] ranks(above, gt, self.asks@),
            forall|i: int, j: int|
                #![trigger self.bids[i], self.asks[j]]
                0 <= i < self.bids.len() && 0 <= j < self.asks.len() ==> midpoint.requires(
                    (&self.bids[i].price, &self.asks[j].price),
                ),
        ensures
            match res {
                Some(p) => forall|gb: spec_fn(N, N) -> bool, ga: spec_fn(N, N) -> bool|
                    #![trigger ranks(above, gb, self.bids@), ranks(above, ga, self.asks@)]
                    ranks(above, gb, self.bids@) && ranks(above, ga, self.asks@) ==> exists|
                        i: int,
                        j: int,
                    |
                        #![trigger is_highest(self.bids@, gb, i), is_lowest(self.asks@, ga, j)]
                        is_highest(self.bids@, gb, i) && is_lowest(self.asks@, ga, j)
                            && midpoint.ensures((&self.bids[i].price, &self.asks[j].price), p),
                None => self.bids.len() == 0 || self.asks.len() == 0,
            },
            self.bids.len() == 0 || self.asks.len() == 0 ==> res is None,
    {
        let bid = highest(&self.bids, &above);
        let ask = lowest(&self.asks, &above);
        match (bid, ask) {
            (Some(bid), Some(ask)) => Some(midpoint(&bid.price, &ask.price)),
            _ => None,
        }
    }
}

/// Single bid or ask level.
#[derive(Debug, Clone)]
pub struct PriceLevel<N> {
    pub price: N,
    pub quantity: N,
}

/// Aggregated order book depth snapshot (historical only).
#[derive(Debug, Clone)]
pub struct BookDepth<N> {
    /// Unix ms. Always valid.
    pub timestamp: i64,
    pub percentage: N,
    pub depth: N,
    pub notional: N,
}

/// Funding-rate / open-interest metrics snapshot (historical only).
#[derive(Debug, Clone)]
pub struct Metrics<N> {
    /// Unix ms. Always valid.
    pub create_time: i64,
    pub symbol: String,
    pub sum_open_interest: N,
    pub sum_open_interest_value: N,
    pub count_toptrader_long_short_ratio: N,
    pub sum_toptrader_long_short_ratio: N,
    pub count_long_short_ratio: N,
    pub sum_taker_long_short_vol_ratio: N,
}

/// Typed market data payload.
#[derive(Debug, Clone)]
pub enum MarketData<N> {
    AggTrade(AggTrade<N>),
    Trade(Trade<N>),
    Kline(Kline<N>),
    /// Realtime only: no CSV/historical equivalent.
    OrderBook(OrderBook<N>),
    /// Historical only: no WebSocket/realtime equivalent.
    BookDepth(BookDepth<N>),
    /// Historical only: no WebSocket/realtime equivalent.
    Metrics(Metrics<N>),
    /// Forward-compatibility variant for data types added after this version.
    Unknown { data_type: String, payload: serde_json::Value },
}

/// The parsers of the typed payloads. Each turns a JSON value into one type, or
/// says why it has another form.
pub struct Decoders<A, T, K, O, B, M> {
    pub agg_trade: A,
    pub trade: T,
    pub kline: K,
    pub order_book: O,
    pub book_depth: B,
    pub metrics: M,
}

/// The kind of payload that a data type announces.
#[derive(Debug, Clone, Copy, PartialEq, Eq, Structural)]
pub enum PayloadKind {
    AggTrade,
    Trade,
    Kline,
    OrderBook,
    BookDepth,
    Metrics,
    /// A data type added after this version.
    Unknown,
}

impl PayloadKind {
    /// The kind that a data type announces.
    pub open spec fn spec_of(data_type: Seq<char>) -> PayloadKind {
        if data_type == "aggTrades"@ {
            PayloadKind::AggTrade
        } else if data_type == "trades"@ {
            PayloadKind::Trade
        } else if data_type == "klines"@ {
            PayloadKind::Kline
        } else if data_type == "orderBook"@ {
            PayloadKind::OrderBook
        } else if data_type == "bookDepth"@ {
            PayloadKind::BookDepth
        } else if data_type == "metrics"@ {
            PayloadKind::Metrics
        } else {
            PayloadKind::Unknown
        }
    }

    /// The kind that a data type announces.
    pub fn of(data_type: &str) -> (res: PayloadKind)
        ensures
            res == PayloadKind::spec_of(data_type@),
    {
        if crate::text::same_text(data_type, "aggTrades") {
            PayloadKind::AggTrade
        } else if crate::text::same_text(data_type, "trades") {
            PayloadKind::Trade
        } else if crate::text::same_text(data_type, "klines") {
            PayloadKind::Kline
        } else if crate::text::same_text(data_type, "orderBook") {
            PayloadKind::OrderBook
        } else if crate::text::same_text(data_type, "bookDepth") {
            PayloadKind::BookDepth
        } else if crate::text::same_text(data_type, "metrics") {
            PayloadKind::Metrics
        } else {
            PayloadKind::Unknown
        }
    }
}

/// Whether `res` is what comes of parsing `payload` with `parse`: the parsed
/// value as the variant `wrap`, or the parser's message as a JSON error.
pub open spec fn parsed_as<N, V, F: FnOnce(serde_json::Value) -> Result<V, String>>(
    parse: F,
    payload: serde_json::Value,
    wrap: spec_fn(V) -> MarketData<N>,
    res: Result<MarketData<N>, AegisError>,
) -> bool {
    match res {
        Ok(data) => exists|v: V| #[trigger]
            parse.ensures((payload,), Ok(v)) && data == wrap(v),
        Err(e) => exists|m: String| #[trigger]
            parse.ensures((payload,), Err(m)) && e == AegisError::Json(m),
    }
}

/// Whether a parser gives one result for one payload.
pub open spec fn one_result<V, F: FnOnce(serde_json::Value) -> Result<V, String>>(parse: F) -> bool {
    forall|payload: serde_json::Value, x: Result<V, String>, y: Result<V, String>|
        #![trigger parse.ensures((payload,), x), parse.ensures((payload,), y)]
        parse.ensures((payload,), x) && parse.ensures((payload,), y) ==> x == y
}

/// Whether two results of decoding are the same: the same error, or data of the
/// same variant with the same content.
pub open spec fn alike<N>(
    a: Result<MarketData<N>, AegisError>,
    b: Result<MarketData<N>, AegisError>,
) -> bool {
    match (a, b) {
        (
            Ok(MarketData::Unknown { data_type: s, payload: p }),
            Ok(MarketData::Unknown { data_type: t, payload: q }),
        ) => s@ == t@ && p == q,
        _ => a == b,
    }
}

impl<N> MarketData<N> {
    /// Decodes a payload of the given data type. A payload of a data type that
    /// this version does not know is handed on as it is.
    pub fn decode<A, T, K, O, B, M>(
        data_type: &str,
        payload: serde_json::Value,
        decoders: Decoders<A, T, K, O, B, M>,
    ) -> (res: Result<MarketData<N>, AegisError>) where
        A: FnOnce(serde_json::Value) -> Result<AggTrade<N>, String>,
        T: FnOnce(serde_json::Value) -> Result<Trade<N>, String>,
        K: FnOnce(serde_json::Value) -> Result<Kline<N>, String>,
        O: FnOnce(serde_json::Value) -> Result<OrderBook<N>, String>,
        B: FnOnce(serde_json::Value) -> Result<BookDepth<N>, String>,
        M: FnOnce(serde_json::Value) -> Result<Metrics<N>, String>,

        requires
            decoders.take(PayloadKind::spec_of(data_type@), payload),
        ensures
            decoders.decoded(data_type@, payload, res),
            data_type@ == "aggTrades"@ ==> match res {
                Ok(data) => exists|v: AggTrade<N>| #[trigger]
                    decoders.agg_trade.ensures((payload,), Ok(v)) && data == MarketData::AggTrade(v),
                Err(e) => exists|m: String| #[trigger]
                    decoders.agg_trade.ensures((payload,), Err(m)) && e == AegisError::Json(m),
            },
            data_type@ == "trades"@ ==> match res {
                Ok(data) => exists|v: Trade<N>| #[trigger]
                    decoders.trade.ensures((payload,), Ok(v)) && data == MarketData::Trade(v),
                Err(e) => exists|m: String| #[trigger]
                    decoders.trade.ensures((payload,), Err(m)) && e == AegisError::Json(m),
            },
            data_type@ == "klines"@ ==> match res {
                Ok(data) => exists|v: Kline<N>| #[trigger]
                    decoders.kline.ensures((payload,), Ok(v)) && data == MarketData::Kline(v),
                Err(e) => exists|m: String| #[trigger]
                    decoders.kline.ensures((payload,), Err(m)) && e == AegisError::Json(m),
            },
            data_type@ == "orderBook"@ ==> match res {
                Ok(data) => exists|v: OrderBook<N>| #[trigger]
                    decoders.order_book.ensures((payload,), Ok(v)) && data == MarketData::OrderBook(v),
                Err(e) => exists|m: String| #[trigger]
                    decoders.order_book.ensures((payload,), Err(m)) && e == AegisError::Json(m),
            },
            data_type@ == "bookDepth"@ ==> match res {
                Ok(data) => exists|v: BookDepth<N>| #[trigger]
                    decoders.book_depth.ensures((payload,), Ok(v)) && data == MarketData::BookDepth(v),
                Err(e) => exists|m: String| #[trigger]
                    decoders.book_depth.ensures((payload,), Err(m)) && e == AegisError::Json(m),
            },
            data_type@ == "metrics"@ ==> match res {
                Ok(data) => exists|v: Metrics<N>| #[trigger]
                    decoders.metrics.ensures((payload,), Ok(v)) && data == MarketData::Metrics(v),
                Err(e) => exists|m: String| #[trigger]
                    decoders.metrics.ensures((payload,), Err(m)) && e == AegisError::Json(m),
            },
            data_type@ != "aggTrades"@ && data_type@ != "trades"@ && data_type@ != "klines"@ && data_type@
                != "orderBook"@ && data_type@ != "bookDepth"@ && data_type@ != "metrics"@ ==> {
                &&& res matches Ok(MarketData::Unknown { data_type: t, payload: p })
                &&& t@ == data_type@
                &&& p == payload
            },
    {
        proof {
            law_data_types(data_type@);
        }
        match PayloadKind::of(data_type) {
            PayloadKind::AggTrade => {
                let parse = decoders.agg_trade;
                match parse(payload) {
                    Ok(v) => Ok(MarketData::AggTrade(v)),
                    Err(m) => Err(AegisError::Json(m)),
                }
            },
            PayloadKind::Trade => {
                let parse = decoders.trade;
                match parse(payload) {
                    Ok(v) => Ok(MarketData::Trade(v)),
                    Err(m) => Err(AegisError::Json(m)),
                }
            },
            PayloadKind::Kline => {
                let parse = decoders.kline;
                match parse(payload) {
                    Ok(v) => Ok(MarketData::Kline(v)),
                    Err(m) => Err(AegisError::Json(m)),
                }
            },
            PayloadKind::OrderBook => {
                let parse = decoders.order_book;
                match parse(payload) {
                    Ok(v) => Ok(MarketData::OrderBook(v)),
                    Err(m) => Err(AegisError::Json(m)),
                }
            },
            PayloadKind::BookDepth => {
                let parse = decoders.book_depth;
                match parse(payload) {
                    Ok(v) => Ok(MarketData::BookDepth(v)),
                    Err(m) => Err(AegisError::Json(m)),
                }
            },
            PayloadKind::Metrics => {
                let parse = decoders.metrics;
                match parse(payload) {
                    Ok(v) => Ok(MarketData::Metrics(v)),
                    Err(m) => Err(AegisError::Json(m)),
                }
            },
            PayloadKind::Unknown => Ok(
                MarketData::Unknown { data_type: data_type.to_string(), payload },
            ),
        }
    }
}

impl<N, A, T, K, O, B, M> Decoders<A, T, K, O, B, M> where
    A: FnOnce(serde_json::Value) -> Result<AggTrade<N>, String>,
    T: FnOnce(serde_json::Value) -> Result<Trade<N>, String>,
    K: FnOnce(serde_json::Value) -> Result<Kline<N>, String>,
    O: FnOnce(serde_json::Value) -> Result<OrderBook<N>, String>,
    B: FnOnce(serde_json::Value) -> Result<BookDepth<N>, String>,
    M: FnOnce(serde_json::Value) -> Result<Metrics<N>, String>,
 {
    /// Whether the parser of the kind takes the payload.
    pub open spec fn take(self, kind: PayloadKind, payload: serde_json::Value) -> bool {
        match kind {
            PayloadKind::AggTrade => self.agg_trade.requires((payload,)),
            PayloadKind::Trade => self.trade.requires((payload,)),
            PayloadKind::Kline => self.kline.requires((payload,)),
            PayloadKind::OrderBook => self.order_book.requires((payload,)),
            PayloadKind::BookDepth => self.book_depth.requires((payload,)),
            PayloadKind::Metrics => self.metrics.requires((payload,)),
            PayloadKind::Unknown => true,
        }
    }

    /// Whether each parser gives one result for one payload.
    pub open spec fn functional(self) -> bool {
        &&& one_result(self.agg_trade)
        &&& one_result(self.trade)
        &&& one_result(self.kline)
        &&& one_result(self.order_book)
        &&& one_result(self.book_depth)
        &&& one_result(self.metrics)
    }

    /// Whether `res` is what decoding comes to.
    pub open spec fn decoded(
        self,
        data_type: Seq<char>,
        payload: serde_json::Value,
        res: Result<MarketData<N>, AegisError>,
    ) -> bool {
        match PayloadKind::spec_of(data_type) {
            PayloadKind::AggTrade => parsed_as(
                self.agg_trade,
                payload,
                |v: AggTrade<N>| MarketData::AggTrade(v),
                res,
            ),
            PayloadKind::Trade => parsed_as(
                self.trade,
                payload,
                |v: Trade<N>| MarketData::Trade(v),
                res,
            ),
            PayloadKind::Kline => parsed_as(
                self.kline,
                payload,
                |v: Kline<N>| MarketData::Kline(v),
                res,
            ),
            PayloadKind::OrderBook => parsed_as(
                self.order_book,
                payload,
                |v: OrderBook<N>| MarketData::OrderBook(v),
                res,
            ),
            PayloadKind::BookDepth => parsed_as(
                self.book_depth,
                payload,
                |v: BookDepth<N>| MarketData::BookDepth(v),
                res,
            ),
            PayloadKind::Metrics => parsed_as(
                self.metrics,
                payload,
                |v: Metrics<N>| MarketData::Metrics(v),
                res,
            ),
            PayloadKind::Unknown => match res {
                Ok(MarketData::Unknown { data_type: t, payload: p }) => t@ == data_type
                    && p == payload,
                _ => false,
            },
        }
    }
}

/// A payload of a data type that this version does not know is never an error:
/// it is handed on, with its data type.
pub proof fn law_unknown_types_pass<N, A, T, K, O, B, M>(
    decoders: Decoders<A, T, K, O, B, M>,
    data_type: Seq<char>,
    payload: serde_json::Value,
    res: Result<MarketData<N>, AegisError>,
) where
    A: FnOnce(serde_json::Value) -> Result<AggTrade<N>, String>,
    T: FnOnce(serde_json::Value) -> Result<Trade<N>, String>,
    K: FnOnce(serde_json::Value) -> Result<Kline<N>, String>,
    O: FnOnce(serde_json::Value) -> Result<OrderBook<N>, String>,
    B: FnOnce(serde_json::Value) -> Result<BookDepth<N>, String>,
    M: FnOnce(serde_json::Value) -> Result<Metrics<N>, String>,

    requires
        PayloadKind::spec_of(data_type) is Unknown,
        decoders.decoded(data_type, payload, res),
    ensures
        res matches Ok(MarketData::Unknown { data_type: t, payload: p }) && t@ == data_type && p
            == payload,
{
}

/// Each data type announces its own kind of payload, and every other data type
/// an unknown one.
pub proof fn law_data_types(data_type: Seq<char>)
    ensures
        PayloadKind::spec_of(data_type) is AggTrade <==> data_type == "aggTrades"@,
        PayloadKind::spec_of(data_type) is Trade <==> data_type == "trades"@,
        PayloadKind::spec_of(data_type) is Kline <==> data_type == "klines"@,
        PayloadKind::spec_of(data_type) is OrderBook <==> data_type == "orderBook"@,
        PayloadKind::spec_of(data_type) is BookDepth <==> data_type == "bookDepth"@,
        PayloadKind::spec_of(data_type) is Metrics <==> data_type == "metrics"@,
        PayloadKind::spec_of(data_type) is Unknown <==> {
            &&& data_type != "aggTrades"@
            &&& data_type != "trades"@
            &&& data_type != "klines"@
            &&& data_type != "orderBook"@
            &&& data_type != "bookDepth"@
            &&& data_type != "metrics"@
        },
{
    reveal_strlit("aggTrades");
    reveal_strlit("trades");
    reveal_strlit("klines");
    reveal_strlit("orderBook");
    reveal_strlit("bookDepth");
    reveal_strlit("metrics");
    assert("aggTrades"@[0] == 'a');
    assert("trades"@[0] == 't');
    assert("klines"@[0] == 'k');
    assert("orderBook"@[0] == 'o');
    assert("bookDepth"@[0] == 'b');
    assert("metrics"@[0] == 'm');
    assert("aggTrades"@.len() == 9);
    assert("trades"@.len() == 6);
    assert("klines"@.len() == 6);
    assert("orderBook"@.len() == 9);
    assert("bookDepth"@.len() == 9);
    assert("metrics"@.len() == 7);
}

/// What a payload decodes to, data type by data type: the very value that the
/// parser of the type made of it, as the variant of the type, or the parser's
/// message; a payload of any other data type comes out as it is.
pub proof fn law_decoded_as_parsed<N, A, T, K, O, B, M>(
    decoders: Decoders<A, T, K, O, B, M>,
    data_type: Seq<char>,
    payload: serde_json::Value,
    res: Result<MarketData<N>, AegisError>,
) where
    A: FnOnce(serde_json::Value) -> Result<AggTrade<N>, String>,
    T: FnOnce(serde_json::Value) -> Result<Trade<N>, String>,
    K: FnOnce(serde_json::Value) -> Result<Kline<N>, String>,
    O: FnOnce(serde_json::Value) -> Result<OrderBook<N>, String>,
    B: FnOnce(serde_json::Value) -> Result<BookDepth<N>, String>,
    M: FnOnce(serde_json::Value) -> Result<Metrics<N>, String>,

    requires
        decoders.decoded(data_type, payload, res),
    ensures
        data_type == "aggTrades"@ ==> match res {
            Ok(data) => exists|v: AggTrade<N>| #[trigger]
                decoders.agg_trade.ensures((payload,), Ok(v)) && data == MarketData::AggTrade(v),
            Err(e) => exists|m: String| #[trigger]
                decoders.agg_trade.ensures((payload,), Err(m)) && e == AegisError::Json(m),
        },
        data_type == "trades"@ ==> match res {
            Ok(data) => exists|v: Trade<N>| #[trigger]
                decoders.trade.ensures((payload,), Ok(v)) && data == MarketData::Trade(v),
            Err(e) => exists|m: String| #[trigger]
                decoders.trade.ensures((payload,), Err(m)) && e == AegisError::Json(m),
        },
        data_type == "klines"@ ==> match res {
            Ok(data) => exists|v: Kline<N>| #[trigger]
                decoders.kline.ensures((payload,), Ok(v)) && data == MarketData::Kline(v),
            Err(e) => exists|m: String| #[trigger]
                decoders.kline.ensures((payload,), Err(m)) && e == AegisError::Json(m),
        },
        data_type == "orderBook"@ ==> match res {
            Ok(data) => exists|v: OrderBook<N>| #[trigger]
                decoders.order_book.ensures((payload,), Ok(v)) && data == MarketData::OrderBook(v),
            Err(e) => exists|m: String| #[trigger]
                decoders.order_book.ensures((payload,), Err(m)) && e == AegisError::Json(m),
        },
        data_type == "bookDepth"@ ==> match res {
            Ok(data) => exists|v: BookDepth<N>| #[trigger]
                decoders.book_depth.ensures((payload,), Ok(v)) && data == MarketData::BookDepth(v),
            Err(e) => exists|m: String| #[trigger]
                decoders.book_depth.ensures((payload,), Err(m)) && e == AegisError::Json(m),
        },
        data_type == "metrics"@ ==> match res {
            Ok(data) => exists|v: Metrics<N>| #[trigger]
                decoders.metrics.ensures((payload,), Ok(v)) && data == MarketData::Metrics(v),
            Err(e) => exists|m: String| #[trigger]
                decoders.metrics.ensures((payload,), Err(m)) && e == AegisError::Json(m),
        },
        data_type != "aggTrades"@ && data_type != "trades"@ && data_type != "klines"@ && data_type
            != "orderBook"@ && data_type != "bookDepth"@ && data_type != "metrics"@ ==> {
            &&& res matches Ok(MarketData::Unknown { data_type: t, payload: p })
            &&& t@ == data_type
            &&& p == payload
        },
{
    law_data_types(data_type);
}

/// A payload is handed to the parser of its data type only: what the others
/// would take does not matter, and an unknown type needs none.
pub proof fn law_one_parser_asked<N, A, T, K, O, B, M>(
    decoders: Decoders<A, T, K, O, B, M>,
    data_type: Seq<char>,
    payload: serde_json::Value,
) where
    A: FnOnce(serde_json::Value) -> Result<AggTrade<N>, String>,
    T: FnOnce(serde_json::Value) -> Result<Trade<N>, String>,
    K: FnOnce(serde_json::Value) -> Result<Kline<N>, String>,
    O: FnOnce(serde_json::Value) -> Result<OrderBook<N>, String>,
    B: FnOnce(serde_json::Value) -> Result<BookDepth<N>, String>,
    M: FnOnce(serde_json::Value) -> Result<Metrics<N>, String>,

    ensures
        data_type == "aggTrades"@ ==> (decoders.take(PayloadKind::spec_of(data_type), payload)
            <==> decoders.agg_trade.requires((payload,))),
        data_type == "trades"@ ==> (decoders.take(PayloadKind::spec_of(data_type), payload)
            <==> decoders.trade.requires((payload,))),
        data_type == "klines"@ ==> (decoders.take(PayloadKind::spec_of(data_type), payload)
            <==> decoders.kline.requires((payload,))),
        data_type == "orderBook"@ ==> (decoders.take(PayloadKind::spec_of(data_type), payload)
            <==> decoders.order_book.requires((payload,))),
        data_type == "bookDepth"@ ==> (decoders.take(PayloadKind::spec_of(data_type), payload)
            <==> decoders.book_depth.requires((payload,))),
        data_type == "metrics"@ ==> (decoders.take(PayloadKind::spec_of(data_type), payload)
            <==> decoders.metrics.requires((payload,))),
        PayloadKind::spec_of(data_type) is Unknown ==> decoders.take(
            PayloadKind::spec_of(data_type),
            payload,
        ),
{
    law_data_types(data_type);
}

/// Any comparison that goes by an order will do to tell the best levels: one
/// under which no two prices are each above the other, and a price that is not
/// above a second, which is not above a third, is not above the third.
pub proof fn law_orders_rank<N, F: Fn(&N, &N) -> bool>(
    above: F,
    gt: spec_fn(N, N) -> bool,
    levels: Seq<PriceLevel<N>>,
)
    requires
        forall|a: N, b: N| #[trigger] above.requires((&a, &b)),
        forall|a: N, b: N, r: bool| #[trigger] above.ensures((&a, &b), r) ==> r == gt(a, b),
        forall|a: N, b: N| #[trigger] gt(a, b) ==> !gt(b, a),
        forall|a: N, b: N, c: N|
            #![trigger gt(a, b), gt(b, c)]
            !gt(a, b) && !gt(b, c) ==> !gt(a, c),
    ensures
        ranks(above, gt, levels),
{
}

/// The best bid is a bid that no other is above, and it is above every bid
/// before it, so there is just one.
pub proof fn law_best_bid_unbeaten<N>(
    levels: Seq<PriceLevel<N>>,
    gt: spec_fn(N, N) -> bool,
    i: int,
)
    ensures
        is_highest(levels, gt, i) <==> {
            &&& 0 <= i < levels.len()
            &&& forall|k: int|
                0 <= k < levels.len() ==> !gt((#[trigger] levels[k]).price, levels[i].price)
            &&& forall|k: int| 0 <= k < i ==> gt(levels[i].price, (#[trigger] levels[k]).price)
        },
        forall|j: int|
            is_highest(levels, gt, i) && #[trigger] is_highest(levels, gt, j) ==> i == j,
{
    assert forall|j: int| is_highest(levels, gt, i) && #[trigger] is_highest(
        levels,
        gt,
        j,
    ) implies i == j by {
        assert(!gt(levels[i].price, levels[j].price));
        assert(!gt(levels[j].price, levels[i].price));
    }
}

/// The best ask is an ask that is above no other, and every ask before it is
/// above it, so there is just one.
pub proof fn law_best_ask_unbeaten<N>(
    levels: Seq<PriceLevel<N>>,
    gt: spec_fn(N, N) -> bool,
    i: int,
)
    ensures
        is_lowest(levels, gt, i) <==> {
            &&& 0 <= i < levels.len()
            &&& forall|k: int|
                0 <= k < levels.len() ==> !gt(levels[i].price, (#[trigger] levels[k]).price)
            &&& forall|k: int| 0 <= k < i ==> gt((#[trigger] levels[k]).price, levels[i].price)
        },
        forall|j: int| is_lowest(levels, gt, i) && #[trigger] is_lowest(levels, gt, j) ==> i == j,
{
    assert forall|j: int| is_lowest(levels, gt, i) && #[trigger] is_lowest(
        levels,
        gt,
        j,
    ) implies i == j by {
        assert(!gt(levels[i].price, levels[j].price));
        assert(!gt(levels[j].price, levels[i].price));
    }
}

/// With whole numbers for prices, compared by size, the best bid costs at least
/// as much as every bid and the best ask at most as much as every ask.
pub proof fn law_best_levels_of_numbers(levels: Seq<PriceLevel<u64>>, i: int)
    ensures
        is_highest(levels, |a: u64, b: u64| a > b, i) ==> {
            &&& 0 <= i < levels.len()
            &&& forall|k: int|
                0 <= k < levels.len() ==> (#[trigger] levels[k]).price <= levels[i].price
        },
        is_lowest(levels, |a: u64, b: u64| a > b, i) ==> {
            &&& 0 <= i < levels.len()
            &&& forall|k: int|
                0 <= k < levels.len() ==> (#[trigger] levels[k]).price >= levels[i].price
        },
{
    let gt = |a: u64, b: u64| a > b;
    assert forall|k: int|
        is_highest(levels, gt, i) && 0 <= k < levels.len() implies (#[trigger] levels[k]).price
        <= levels[i].price by {
        assert(!gt(levels[k].price, levels[i].price));
    }
    assert forall|k: int|
        is_lowest(levels, gt, i) && 0 <= k < levels.len() implies (#[trigger] levels[k]).price
        >= levels[i].price by {
        assert(!gt(levels[i].price, levels[k].price));
    }
}

/// A row is realtime exactly where it has an event time, whatever else it holds.
pub proof fn law_realtime_rows<N>(row: AggTrade<N>, realtime: bool)
    requires
        call_ensures(AggTrade::<N>::is_realtime, (&row,), realtime),
    ensures
        realtime <==> row.event_time != 0,
{
}

/// A book's event time is a real one exactly where it is later than the
/// thousand-billionth millisecond, whatever else the book holds.
pub proof fn law_real_timestamps<N>(book: OrderBook<N>, timed: bool)
    requires
        call_ensures(OrderBook::<N>::has_real_timestamp, (&book,), timed),
    ensures
        timed <==> book.event_time > 1_000_000_000_000,
{
}

} // verus!
