//! Client-side data types produced by the decoders.

use vstd::prelude::*;
use vstd::string::StringExecFns;
use crate::values::{Address, Decimal, UtcDateTime};

verus! {

/// The side of an order or trade.
#[derive(Clone, Copy, Debug, PartialEq, Eq, Structural)]
pub enum Side {
    BUY,
    SELL,
}

/// How long an order stays on the book.
#[derive(Clone, Copy, Debug, PartialEq, Eq, Structural)]
pub enum OrderType {
    GTC,
    FOK,
    GTD,
    FAK,
}

/// Where an order is in its life.
#[derive(Clone, Copy, Debug, PartialEq, Eq, Structural)]
pub enum OrderStatus {
    Live,
    Cancelled,
    Filled,
    Partial,
    Expired,
}

/// One price level of an order book.
#[derive(Clone, Copy, Debug, PartialEq, Eq, Structural)]
pub struct BookLevel {
    pub price: Decimal,
    pub size: Decimal,
}

/// The bids and asks of one token at one instant.
#[derive(Debug)]
pub struct OrderBook {
    pub token_id: String,
    pub timestamp: UtcDateTime,
    pub bids: Vec<BookLevel>,
    pub asks: Vec<BookLevel>,
    pub sequence: u64,
}

/// An order as the client tracks it.
#[derive(Debug)]
pub struct Order {
    pub id: String,
    pub token_id: String,
    pub side: Side,
    pub price: Decimal,
    pub original_size: Decimal,
    pub filled_size: Decimal,
    pub remaining_size: Decimal,
    pub status: OrderStatus,
    pub order_type: OrderType,
    pub created_at: UtcDateTime,
    pub updated_at: UtcDateTime,
    pub expiration: Option<UtcDateTime>,
    pub client_id: Option<String>,
}

/// A fill of an order.
#[derive(Debug)]
pub struct FillEvent {
    pub id: String,
    pub order_id: String,
    pub token_id: String,
    pub side: Side,
    pub price: Decimal,
    pub size: Decimal,
    pub timestamp: UtcDateTime,
    pub maker_address: Address,
    pub taker_address: Address,
    pub fee: Decimal,
}

/// One outcome token of a market.
#[derive(Debug)]
pub struct Token {
    pub token_id: String,
    pub outcome: String,
    pub price: Decimal,
    pub winner: bool,
}

/// The liquidity reward terms of a market.
#[derive(Debug)]
pub struct Rewards {
    pub rates: Option<Vec<Decimal>>,
    pub min_size: Decimal,
    pub max_spread: Decimal,
    pub event_start_date: Option<String>,
    pub event_end_date: Option<String>,
    pub in_game_multiplier: Option<Decimal>,
    pub reward_epoch: Option<u64>,
}

/// A binary market.
#[derive(Debug)]
pub struct Market {
    pub condition_id: String,
    pub tokens: [Token; 2],
    pub rewards: Rewards,
    pub min_incentive_size: Option<String>,
    pub max_incentive_spread: Option<String>,
    pub active: bool,
    pub closed: bool,
    pub question_id: String,
    pub minimum_order_size: Decimal,
    pub minimum_tick_size: Decimal,
    pub description: String,
    pub category: Option<String>,
    pub end_date_iso: Option<String>,
    pub game_start_time: Option<String>,
    pub question: String,
    pub market_slug: String,
    pub seconds_delay: Decimal,
    pub icon: String,
    pub fpmm: String,
    pub enable_order_book: bool,
    pub archived: bool,
    pub accepting_orders: bool,
    pub accepting_order_timestamp: Option<String>,
    pub maker_base_fee: Decimal,
    pub taker_base_fee: Decimal,
    pub notifications_enabled: bool,
    pub neg_risk: bool,
    pub neg_risk_market_id: String,
    pub neg_risk_request_id: String,
    pub image: String,
    pub is_50_50_outcome: bool,
}

/// A decoding failure, with a human readable message.
#[derive(Debug)]
pub enum PolyfillError {
    /// A value could not be parsed or converted.
    Parse { message: String },
    /// The input was not JSON of the expected shape.
    Json { message: String },
}

/// The error is a parse error with exactly this message.
pub open spec fn is_parse_error_with(r: PolyfillError, message: Seq<char>) -> bool {
    r matches PolyfillError::Parse { message: m } && m@ == message
}

/// The error is a parse error whose message begins with this text.
pub open spec fn is_parse_error_starting(r: PolyfillError, prefix: Seq<char>) -> bool {
    r matches PolyfillError::Parse { message: m } && prefix.len() <= m@.len() && m@.subrange(0, prefix.len() as int) == prefix
}

/// A parse error whose message is `prefix` followed by `detail`.
pub(crate) fn parse_error_with_detail(prefix: &str, detail: &str) -> (r: PolyfillError)
    ensures
        is_parse_error_with(r, prefix@ + detail@),
        is_parse_error_starting(r, prefix@),
{
    let mut message = String::from_str(prefix);
    message.append(detail);
    assert((prefix@ + detail@).subrange(0, prefix@.len() as int) =~= prefix@);
    PolyfillError::Parse { message }
}

} // verus!
