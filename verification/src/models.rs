//! The messages of a session and the samples that flow through it.

use crate::ast::{Expression, ExpressionView};
use crate::decimal::{Decimal, DecimalView};
use vstd::prelude::*;
use vstd::std_specs::convert::FromSpecImpl;

verus! {

/// The name of a stream, as the feed and the client write it.
pub type WsStream = String;

/// What a request asks for.
#[derive(Debug, Clone, Copy, PartialEq, Eq, Structural)]
pub enum Method {
    Subscribe,
}

/// A client's request: `stream` holds the formula and its interval.
#[derive(Debug)]
pub struct RawRequest {
    pub id: u64,
    pub method: Method,
    pub stream: String,
}

/// The request sent to the feed: one stream name for each symbol.
#[derive(Debug)]
pub struct BinanceRequest {
    pub id: u64,
    pub method: Method,
    pub params: Vec<WsStream>,
}

/// One message of the feed: a candle of one symbol.
#[derive(Debug)]
pub struct BinanceResponse {
    pub stream: WsStream,
    pub data: BinanceResponseData,
}

/// What the client receives for one evaluation of its formula.
#[derive(Debug)]
pub struct ClientResponse {
    pub stream: WsStream,
    pub data: Rates,
}

/// The body of a feed message.
#[derive(Debug)]
pub struct BinanceResponseData {
    pub event_type: String,
    pub event_time: u64,
    pub symbol: String,
    pub k: Rates,
}

/// Open, high, low and close of one candle, and the time at which it starts.
#[derive(Debug)]
pub struct Rates {
    pub kline_start_time: u64,
    pub open: Decimal,
    pub high: Decimal,
    pub low: Decimal,
    pub close: Decimal,
}

/// A parsed request: the formula and the candle interval it is asked for.
#[derive(Debug)]
pub struct StreamRequestAST {
    pub request: Expression,
    pub candle_interval: String,
}

/// The mathematical content of [`Rates`].
pub struct RatesView {
    pub kline_start_time: u64,
    pub open: DecimalView,
    pub high: DecimalView,
    pub low: DecimalView,
    pub close: DecimalView,
}

/// The mathematical content of [`BinanceResponseData`].
pub struct BinanceResponseDataView {
    pub event_type: Seq<char>,
    pub event_time: u64,
    pub symbol: Seq<char>,
    pub k: RatesView,
}

/// The mathematical content of [`BinanceResponse`].
pub struct BinanceResponseView {
    pub stream: Seq<char>,
    pub data: BinanceResponseDataView,
}

/// The mathematical content of [`ClientResponse`].
pub struct ClientResponseView {
    pub stream: Seq<char>,
    pub data: RatesView,
}

/// The mathematical content of [`BinanceRequest`].
pub struct BinanceRequestView {
    pub id: u64,
    pub method: Method,
    pub params: Seq<Seq<char>>,
}

/// The mathematical content of [`StreamRequestAST`].
pub struct StreamRequestASTView {
    pub request: ExpressionView,
    pub candle_interval: Seq<char>,
}

impl View for Rates {
    type V = RatesView;

    open spec fn view(&self) -> RatesView {
        RatesView {
            kline_start_time: self.kline_start_time,
            open: self.open@,
            high: self.high@,
            low: self.low@,
            close: self.close@,
        }
    }
}

impl View for BinanceResponseData {
    type V = BinanceResponseDataView;

    open spec fn view(&self) -> BinanceResponseDataView {
        BinanceResponseDataView {
            event_type: self.event_type@,
            event_time: self.event_time,
            symbol: self.symbol@,
            k: self.k@,
        }
    }
}

impl View for BinanceResponse {
    type V = BinanceResponseView;

    open spec fn view(&self) -> BinanceResponseView {
        BinanceResponseView { stream: self.stream@, data: self.data@ }
    }
}

impl View for ClientResponse {
    type V = ClientResponseView;

    open spec fn view(&self) -> ClientResponseView {
        ClientResponseView { stream: self.stream@, data: self.data@ }
    }
}

impl View for BinanceRequest {
    type V = BinanceRequestView;

    open spec fn view(&self) -> BinanceRequestView {
        BinanceRequestView { id: self.id, method: self.method, params: self.params.deep_view() }
    }
}

impl View for StreamRequestAST {
    type V = StreamRequestASTView;

    open spec fn view(&self) -> StreamRequestASTView {
        StreamRequestASTView { request: self.request@, candle_interval: self.candle_interval@ }
    }
}

/// Rates that are all zero, at time zero.
pub open spec fn zero_rates() -> RatesView {
    let zero = DecimalView { unscaled: 0, scale: 0 };
    RatesView { kline_start_time: 0, open: zero, high: zero, low: zero, close: zero }
}

/// A feed message without text, with rates that are all zero.
pub open spec fn empty_response() -> BinanceResponseView {
    BinanceResponseView {
        stream: Seq::empty(),
        data: BinanceResponseDataView {
            event_type: Seq::empty(),
            event_time: 0,
            symbol: Seq::empty(),
            k: zero_rates(),
        },
    }
}

impl Default for Rates {
    fn default() -> (r: Rates)
        ensures
            r@ == zero_rates(),
    {
        Rates {
            kline_start_time: 0,
            open: Decimal::zero(),
            high: Decimal::zero(),
            low: Decimal::zero(),
            close: Decimal::zero(),
        }
    }
}

impl Default for BinanceResponseData {
    fn default() -> (r: BinanceResponseData)
        ensures
            r@ == empty_response().data,
    {
        BinanceResponseData {
            event_type: String::new(),
            event_time: 0,
            symbol: String::new(),
            k: Rates::default(),
        }
    }
}

impl Default for BinanceResponse {
    fn default() -> (r: BinanceResponse)
        ensures
            r@ == empty_response(),
    {
        BinanceResponse { stream: String::new(), data: BinanceResponseData::default() }
    }
}

impl Default for ClientResponse {
    fn default() -> (r: ClientResponse)
        ensures
            r@ == (ClientResponseView { stream: Seq::empty(), data: zero_rates() }),
    {
        ClientResponse { stream: String::new(), data: Rates::default() }
    }
}

impl Clone for Rates {
    fn clone(&self) -> (r: Rates)
        ensures
            r@ == self@,
    {
        Rates {
            kline_start_time: self.kline_start_time,
            open: self.open.clone(),
            high: self.high.clone(),
            low: self.low.clone(),
            close: self.close.clone(),
        }
    }
}

impl Clone for BinanceResponseData {
    fn clone(&self) -> (r: BinanceResponseData)
        ensures
            r@ == self@,
    {
        BinanceResponseData {
            event_type: self.event_type.clone(),
            event_time: self.event_time,
            symbol: self.symbol.clone(),
            k: self.k.clone(),
        }
    }
}

impl Clone for BinanceResponse {
    fn clone(&self) -> (r: BinanceResponse)
        ensures
            r@ == self@,
    {
        BinanceResponse { stream: self.stream.clone(), data: self.data.clone() }
    }
}

impl Clone for ClientResponse {
    fn clone(&self) -> (r: ClientResponse)
        ensures
            r@ == self@,
    {
        ClientResponse { stream: self.stream.clone(), data: self.data.clone() }
    }
}

impl From<BinanceResponse> for ClientResponse {
    /// Keeps the stream name and the rates of a feed message.
    fn from(resp: BinanceResponse) -> (r: ClientResponse) {
        ClientResponse { stream: resp.stream, data: resp.data.k }
    }
}

impl FromSpecImpl<BinanceResponse> for ClientResponse {
    open spec fn obeys_from_spec() -> bool {
        true
    }

    open spec fn from_spec(resp: BinanceResponse) -> ClientResponse {
        ClientResponse { stream: resp.stream, data: resp.data.k }
    }
}

} // verus!
