//! Response records: plain data carried back from the exchange, each
//! with an integer status code and an operation-specific payload.

use vstd::prelude::*;

use crate::request::{Decimal, OrderStatus, OrderType};

verus! {

/// Whether a status code reports success.
pub trait Success {
    fn is_success(&self) -> bool;
}

impl Success for i32 {
    /// The exchange reports success as code 200.
    fn is_success(&self) -> (b: bool)
        ensures
            b == (*self == 200),
    {
        *self == 200
    }
}

/// The side a trade was taken on, coded 0 (ask) / 1 (bid) on the wire.
#[derive(Debug, Clone, Copy, PartialEq, Eq, Structural)]
pub enum Direction {
    Ask,
    Bid,
}

impl Direction {
    /// The wire code of the direction.
    pub fn code(&self) -> (c: u8)
        ensures
            c == self.spec_code(),
    {
        match self {
            Direction::Ask => 0,
            Direction::Bid => 1,
        }
    }

    pub open spec fn spec_code(self) -> u8 {
        match self {
            Direction::Ask => 0,
            Direction::Bid => 1,
        }
    }
}

#[derive(Debug)]
pub struct NonceResponse {
    pub code: i32,
    pub data: Option<String>,
}

#[derive(Debug)]
pub struct TokenResponse {
    pub code: i32,
    pub data: Option<String>,
}

#[derive(Debug)]
pub struct PendingOrderResponse {
    pub code: i32,
    pub data: Option<String>,
}

#[derive(Debug)]
pub struct BatchPendingOrdersResponse {
    pub code: i32,
    pub data: Option<Vec<String>>,
}

#[derive(Debug)]
pub struct CancelOrderResponse {
    pub code: i32,
    pub data: Option<String>,
}

#[derive(Debug)]
pub struct BatchCancelOrdersResponse {
    pub code: i32,
    pub data: Option<String>,
}

#[derive(Debug)]
pub struct Trade {
    pub base: i32,
    pub quote: i32,
    pub ask_or_bid: Direction,
    pub price: Decimal,
    pub amount: Decimal,
    pub quote_amount: Decimal,
    pub quote_fee: Decimal,
    pub base_fee: Decimal,
    pub timestamp: i64,
}

#[derive(Debug)]
pub struct QueryOrder {
    pub symbol: String,
    pub order_id: String,
    pub order_type: OrderType,
    pub direction: Direction,
    pub amount: Decimal,
    pub price: Decimal,
    pub filled_base: Decimal,
    pub filled_quote: Decimal,
    pub avg_price: Decimal,
    pub status: OrderStatus,
    pub trades: Vec<Trade>,
}

#[derive(Debug)]
pub struct QueryByIdResponse {
    pub code: i32,
    pub data: Option<QueryOrder>,
}

#[derive(Debug)]
pub struct QueryByPageResponse {
    pub code: i32,
    pub data: Option<Vec<QueryOrder>>,
}

#[derive(Debug)]
pub struct Balance {
    pub code: i32,
    pub name: String,
    pub available: Decimal,
    pub frozen: Decimal,
}

#[derive(Debug)]
pub struct BalancesResposne {
    pub code: i32,
    pub data: Option<Balance>,
}

#[derive(Debug)]
pub struct Depth {
    pub depth: i32,
    pub bids: Vec<Vec<Decimal>>,
    pub asks: Vec<Vec<Decimal>>,
}

#[derive(Debug)]
pub struct DepthResponse {
    pub code: i32,
    pub data: Option<Depth>,
}

#[derive(Debug)]
pub struct Kline {
    pub id: i64,
    pub open: Decimal,
    pub close: Decimal,
    pub high: Decimal,
    pub low: Decimal,
    pub vol: Decimal,
}

#[derive(Debug)]
pub struct KlineResponse {
    pub code: i32,
    pub data: Option<Vec<Kline>>,
}

#[derive(Debug)]
pub struct Symbol {
    pub base: i32,
    pub quote: i32,
    pub base_name: String,
    pub quote_name: String,
    pub base_scale: i32,
    pub quote_scale: i32,
    pub taker_fee: Decimal,
    pub make_fee: Decimal,
    pub min_amount: Decimal,
    pub min_vol: Decimal,
    pub enable_marker_order: bool,
}

#[derive(Debug)]
pub struct SymbolsResponse {
    pub code: i32,
    pub data: Option<Vec<Symbol>>,
}

} // verus!
