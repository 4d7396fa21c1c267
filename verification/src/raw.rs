//! Responses as the API sends them, and their conversion into client types.

use vstd::prelude::*;
use vstd::string::StringExecFns;
use crate::deserializers::spec_utc;
use crate::text::str_equals;
use crate::types::{
    BookLevel, FillEvent, Market, Order, OrderBook, OrderStatus, OrderType, PolyfillError, Rewards, Side, Token,
    is_parse_error_starting, is_parse_error_with, parse_error_with_detail,
};
use crate::values::{
    DECIMAL_MAX_MANTISSA, Decimal, UtcDateTime, address_from_str, decimal_checked_sub, spec_address_from_hex,
    spec_decimal_checked_sub, utc_from_timestamp,
};

verus! {

/// An order book as the API sends it.
#[derive(Debug)]
pub struct RawOrderBookResponse {
    pub market: String,
    pub asset_id: String,
    pub hash: String,
    pub timestamp: u64,
    pub bids: Vec<RawBookLevel>,
    pub asks: Vec<RawBookLevel>,
}

/// One price level as the API sends it.
#[derive(Clone, Copy, Debug)]
pub struct RawBookLevel {
    pub price: Decimal,
    pub size: Decimal,
}

/// An order as the API sends it.
#[derive(Debug)]
pub struct RawOrderResponse {
    pub id: String,
    pub status: String,
    pub market: String,
    pub asset_id: String,
    pub maker_address: String,
    pub owner: String,
    pub outcome: String,
    pub order_type: OrderType,
    pub side: Side,
    pub original_size: Decimal,
    pub price: Decimal,
    pub size_matched: Decimal,
    pub expiration: u64,
    pub created_at: u64,
}

/// A trade as the API sends it.
#[derive(Debug)]
pub struct RawTradeResponse {
    pub id: String,
    pub market: String,
    pub asset_id: String,
    pub side: Side,
    pub price: Decimal,
    pub size: Decimal,
    pub maker_address: String,
    pub taker_address: String,
    pub timestamp: u64,
}

/// A market as the API sends it.
#[derive(Debug)]
pub struct RawMarketResponse {
    pub condition_id: String,
    pub tokens: [RawToken; 2],
    pub active: bool,
    pub closed: bool,
    pub question: String,
    pub description: String,
    pub category: Option<String>,
    pub end_date_iso: Option<String>,
    pub minimum_order_size: Decimal,
    pub minimum_tick_size: Decimal,
}

/// One outcome token as the API sends it.
#[derive(Debug)]
pub struct RawToken {
    pub token_id: String,
    pub outcome: String,
}

/// Conversion of a raw API response into a client type.
pub trait Decoder<T>: Sized {
    /// The responses that can be converted without an arithmetic overflow.
    spec fn decodable(&self) -> bool;

    fn decode(&self) -> (r: Result<T, PolyfillError>)
        requires
            self.decodable(),
    ;
}

/// A book level with the same price and size.
pub open spec fn spec_book_level(l: RawBookLevel) -> BookLevel {
    BookLevel { price: l.price, size: l.size }
}

fn book_levels(raw: &Vec<RawBookLevel>) -> (r: Vec<BookLevel>)
    ensures
        r@ == raw@.map_values(|l: RawBookLevel| spec_book_level(l)),
{
    let mut r: Vec<BookLevel> = Vec::new();
    let mut i: usize = 0;
    while i < raw.len()
        invariant
            0 <= i <= raw@.len(),
            r@ == raw@.subrange(0, i as int).map_values(|l: RawBookLevel| spec_book_level(l)),
        decreases raw@.len() - i,
    {
        let l = &raw[i];
        r.push(BookLevel { price: l.price, size: l.size });
        assert(raw@.subrange(0, i + 1).drop_last() =~= raw@.subrange(0, i as int));
        i = i + 1;
    }
    assert(raw@.subrange(0, raw@.len() as int) =~= raw@);
    r
}

fn parse_error(text: &str) -> (r: PolyfillError)
    ensures
        is_parse_error_with(r, text@),
{
    PolyfillError::Parse { message: String::from_str(text) }
}

impl Decoder<OrderBook> for RawOrderBookResponse {
    open spec fn decodable(&self) -> bool {
        true
    }

    /// An order book for the token of the response, at its timestamp, with its
    /// levels in the same order.
    fn decode(&self) -> (r: Result<OrderBook, PolyfillError>)
        ensures
            match spec_utc(self.timestamp as i64) {
                Some(t) => r matches Ok(b) && {
                    &&& b.token_id == self.asset_id
                    &&& b.timestamp == t
                    &&& b.bids@ == self.bids@.map_values(|l: RawBookLevel| spec_book_level(l))
                    &&& b.asks@ == self.asks@.map_values(|l: RawBookLevel| spec_book_level(l))
                    &&& b.sequence == 0
                },
                None => r matches Err(e) && is_parse_error_with(e, "Invalid timestamp"@),
            },
    {
        let timestamp = match utc_from_timestamp(self.timestamp as i64) {
            Some(t) => t,
            None => return Err(parse_error("Invalid timestamp")),
        };
        let bids = book_levels(&self.bids);
        let asks = book_levels(&self.asks);
        Ok(OrderBook { token_id: self.asset_id.clone(), timestamp, bids, asks, sequence: 0 })
    }
}

/// The order status that the API's status word names.
pub open spec fn spec_order_status(s: Seq<char>) -> Option<OrderStatus> {
    if s == "LIVE"@ {
        Some(OrderStatus::Live)
    } else if s == "CANCELLED"@ {
        Some(OrderStatus::Cancelled)
    } else if s == "FILLED"@ {
        Some(OrderStatus::Filled)
    } else if s == "PARTIAL"@ {
        Some(OrderStatus::Partial)
    } else if s == "EXPIRED"@ {
        Some(OrderStatus::Expired)
    } else {
        None
    }
}

fn order_status(s: &str) -> (r: Option<OrderStatus>)
    ensures
        r == spec_order_status(s@),
{
    if str_equals(s, "LIVE") {
        Some(OrderStatus::Live)
    } else if str_equals(s, "CANCELLED") {
        Some(OrderStatus::Cancelled)
    } else if str_equals(s, "FILLED") {
        Some(OrderStatus::Filled)
    } else if str_equals(s, "PARTIAL") {
        Some(OrderStatus::Partial)
    } else if str_equals(s, "EXPIRED") {
        Some(OrderStatus::Expired)
    } else {
        None
    }
}

/// The instant at which an order expires: none where the response gives 0.
pub open spec fn spec_expiration(expiration: u64) -> Option<Option<UtcDateTime>> {
    if expiration > 0 {
        match spec_utc(expiration as i64) {
            Some(t) => Some(Some(t)),
            None => None,
        }
    } else {
        Some(None)
    }
}

impl RawOrderResponse {
    /// The checks on status and instants pass, so that the order is built.
    pub open spec fn order_checks_pass(&self) -> bool {
        &&& spec_order_status(self.status@) is Some
        &&& spec_utc(self.created_at as i64) is Some
        &&& spec_expiration(self.expiration) is Some
    }

    /// The order that the response describes, given the remaining size.
    pub open spec fn order_is(&self, o: Order, remaining: Decimal) -> bool {
        &&& o.id == self.id
        &&& o.token_id == self.asset_id
        &&& o.side == self.side
        &&& o.price == self.price
        &&& o.original_size == self.original_size
        &&& o.filled_size == self.size_matched
        &&& o.remaining_size == remaining
        &&& spec_order_status(self.status@) == Some(o.status)
        &&& o.order_type == self.order_type
        &&& spec_utc(self.created_at as i64) == Some(o.created_at)
        &&& o.updated_at == o.created_at
        &&& spec_expiration(self.expiration) == Some(o.expiration)
        &&& o.client_id is None
    }

    /// The outcome of decoding, where `remaining` is the difference of the
    /// original and matched sizes: the status is checked first, then the
    /// creation instant, then the expiration.
    pub open spec fn decoded_with(&self, r: Result<Order, PolyfillError>, remaining: Decimal) -> bool {
        if spec_order_status(self.status@) is None {
            r matches Err(e) && is_parse_error_with(e, "Unknown order status: "@ + self.status@)
        } else if spec_utc(self.created_at as i64) is None {
            r matches Err(e) && is_parse_error_with(e, "Invalid created_at timestamp"@)
        } else if spec_expiration(self.expiration) is None {
            r matches Err(e) && is_parse_error_with(e, "Invalid expiration timestamp"@)
        } else {
            r matches Ok(o) && self.order_is(o, remaining)
        }
    }

    /// Builds the order that the response describes, where `remaining` is the
    /// size still open.
    pub fn decode_with_remaining(&self, remaining: Decimal) -> (r: Result<Order, PolyfillError>)
        ensures
            self.decoded_with(r, remaining),
    {
        let status = match order_status(self.status.as_str()) {
            Some(s) => s,
            None => return Err(parse_error_with_detail("Unknown order status: ", self.status.as_str())),
        };
        let created_at = match utc_from_timestamp(self.created_at as i64) {
            Some(t) => t,
            None => return Err(parse_error("Invalid created_at timestamp")),
        };
        let expiration = if self.expiration > 0 {
            match utc_from_timestamp(self.expiration as i64) {
                Some(t) => Some(t),
                None => return Err(parse_error("Invalid expiration timestamp")),
            }
        } else {
            None
        };
        Ok(Order {
            id: self.id.clone(),
            token_id: self.asset_id.clone(),
            side: self.side,
            price: self.price,
            original_size: self.original_size,
            filled_size: self.size_matched,
            remaining_size: remaining,
            status,
            order_type: self.order_type,
            created_at,
            updated_at: created_at,
            expiration,
            client_id: None,
        })
    }

    /// The two sizes have the same scale and their difference fits.
    pub open spec fn sizes_subtract_exactly(&self) -> bool {
        &&& self.original_size.scale == self.size_matched.scale
        &&& -DECIMAL_MAX_MANTISSA <= self.original_size.mantissa - self.size_matched.mantissa <= DECIMAL_MAX_MANTISSA
    }

    /// The exact difference of the sizes at their common scale.
    pub open spec fn exact_remaining_size(&self) -> Decimal {
        Decimal {
            mantissa: (self.original_size.mantissa - self.size_matched.mantissa) as i128,
            scale: self.original_size.scale,
        }
    }

    /// The size still open: the original size less the matched size, as
    /// `rust_decimal` computes it, or `None` where that overflows. An order
    /// decodes (`decodable`) exactly where this is `Some` or the status and
    /// instant checks fail first.
    pub fn checked_remaining_size(&self) -> (r: Option<Decimal>)
        requires
            self.original_size.wf(),
            self.size_matched.wf(),
        ensures
            r == spec_decimal_checked_sub(self.original_size, self.size_matched),
            r matches Some(d) ==> d.wf(),
            self.sizes_subtract_exactly() ==> r == Some(self.exact_remaining_size()),
    {
        decimal_checked_sub(self.original_size, self.size_matched)
    }

    /// Decodes the order where the remaining size can be computed: `None`
    /// exactly where the checks pass but the difference of the sizes overflows.
    pub fn decode_checked(&self) -> (r: Option<Result<Order, PolyfillError>>)
        requires
            self.original_size.wf(),
            self.size_matched.wf(),
        ensures
            match r {
                Some(res) => !self.order_checks_pass() || spec_decimal_checked_sub(self.original_size, self.size_matched) is Some,
                None => self.order_checks_pass() && spec_decimal_checked_sub(self.original_size, self.size_matched) is None,
            },
            r matches Some(res) ==> self.decoded_with(res, match spec_decimal_checked_sub(self.original_size, self.size_matched) {
                Some(d) => d,
                None => Decimal { mantissa: 0, scale: 0 },
            }),
            self.sizes_subtract_exactly() ==> (r matches Some(res) && self.decoded_with(res, self.exact_remaining_size())),
    {
        match decimal_checked_sub(self.original_size, self.size_matched) {
            Some(d) => Some(self.decode_with_remaining(d)),
            None => {
                let res = self.decode_with_remaining(Decimal::zero());
                if res.is_ok() {
                    None
                } else {
                    Some(res)
                }
            },
        }
    }
}

/// Law: a decoded order has no expiration exactly where the response gives 0,
/// and is last updated when it was created.
pub proof fn law_order_expiration_absent_exactly_for_zero(raw: RawOrderResponse, r: Result<Order, PolyfillError>, remaining: Decimal)
    requires
        raw.decoded_with(r, remaining),
        r is Ok,
    ensures
        (r->Ok_0.expiration is None) <==> raw.expiration == 0,
        r->Ok_0.updated_at == r->Ok_0.created_at,
{
}

impl Decoder<Order> for RawOrderResponse {
    open spec fn decodable(&self) -> bool {
        &&& self.original_size.wf()
        &&& self.size_matched.wf()
        &&& self.order_checks_pass() ==> spec_decimal_checked_sub(self.original_size, self.size_matched) is Some
    }

    /// The order that the response describes; its remaining size is the
    /// original size less the matched size.
    fn decode(&self) -> (r: Result<Order, PolyfillError>)
        ensures
            self.decoded_with(r, match spec_decimal_checked_sub(self.original_size, self.size_matched) {
                Some(d) => d,
                None => Decimal { mantissa: 0, scale: 0 },
            }),
            self.sizes_subtract_exactly() ==> self.decoded_with(r, self.exact_remaining_size()),
    {
        match self.decode_checked() {
            Some(res) => res,
            None => {
                proof {
                    assert(false);
                }
                Err(parse_error("Subtraction overflowed"))
            },
        }
    }
}

impl Decoder<FillEvent> for RawTradeResponse {
    open spec fn decodable(&self) -> bool {
        true
    }

    /// A fill of the trade: the timestamp is checked first, then the maker's
    /// address, then the taker's; the order id is empty and the fee zero.
    fn decode(&self) -> (r: Result<FillEvent, PolyfillError>)
        ensures
            if spec_utc(self.timestamp as i64) is None {
                r matches Err(e) && is_parse_error_with(e, "Invalid trade timestamp"@)
            } else if spec_address_from_hex(vstd::utf8::encode_utf8(self.maker_address@)) is None {
                r matches Err(e) && is_parse_error_starting(e, "Invalid maker address: "@)
            } else if spec_address_from_hex(vstd::utf8::encode_utf8(self.taker_address@)) is None {
                r matches Err(e) && is_parse_error_starting(e, "Invalid taker address: "@)
            } else {
                r matches Ok(f) && {
                    &&& f.id == self.id
                    &&& f.order_id@ == Seq::<char>::empty()
                    &&& f.token_id == self.asset_id
                    &&& f.side == self.side
                    &&& f.price == self.price
                    &&& f.size == self.size
                    &&& spec_utc(self.timestamp as i64) == Some(f.timestamp)
                    &&& spec_address_from_hex(vstd::utf8::encode_utf8(self.maker_address@)) == Some(f.maker_address.bytes@)
                    &&& spec_address_from_hex(vstd::utf8::encode_utf8(self.taker_address@)) == Some(f.taker_address.bytes@)
                    &&& f.fee == (Decimal { mantissa: 0, scale: 0 })
                }
            },
    {
        let timestamp = match utc_from_timestamp(self.timestamp as i64) {
            Some(t) => t,
            None => return Err(parse_error("Invalid trade timestamp")),
        };
        let maker_address = match address_from_str(self.maker_address.as_str()) {
            Ok(a) => a,
            Err(e) => return Err(parse_error_with_detail("Invalid maker address: ", e.to_string().as_str())),
        };
        let taker_address = match address_from_str(self.taker_address.as_str()) {
            Ok(a) => a,
            Err(e) => return Err(parse_error_with_detail("Invalid taker address: ", e.to_string().as_str())),
        };
        Ok(FillEvent {
            id: self.id.clone(),
            order_id: String::new(),
            token_id: self.asset_id.clone(),
            side: self.side,
            price: self.price,
            size: self.size,
            timestamp,
            maker_address,
            taker_address,
            fee: Decimal::zero(),
        })
    }
}

fn clone_option_string(s: &Option<String>) -> (r: Option<String>)
    ensures
        r == *s,
{
    match s {
        Some(x) => Some(x.clone()),
        None => None,
    }
}

impl RawMarketResponse {
    /// The market that the response describes: its tokens unpriced and not
    /// winning, default reward terms, a slug made from the condition id, the
    /// condition id standing in for the question id, and every field that the
    /// response lacks empty, false or zero.
    pub open spec fn market_is(&self, m: Market) -> bool {
        let zero = Decimal { mantissa: 0, scale: 0 };
        &&& m.condition_id == self.condition_id
        &&& m.tokens[0].token_id == self.tokens[0].token_id
        &&& m.tokens[0].outcome == self.tokens[0].outcome
        &&& m.tokens[0].price == zero
        &&& !m.tokens[0].winner
        &&& m.tokens[1].token_id == self.tokens[1].token_id
        &&& m.tokens[1].outcome == self.tokens[1].outcome
        &&& m.tokens[1].price == zero
        &&& !m.tokens[1].winner
        &&& m.rewards.rates is None
        &&& m.rewards.min_size == zero
        &&& m.rewards.max_spread == (Decimal { mantissa: 1, scale: 0 })
        &&& m.rewards.event_start_date is None
        &&& m.rewards.event_end_date is None
        &&& m.rewards.in_game_multiplier is None
        &&& m.rewards.reward_epoch is None
        &&& m.min_incentive_size is None
        &&& m.max_incentive_spread is None
        &&& m.active == self.active
        &&& m.closed == self.closed
        &&& m.question_id == self.condition_id
        &&& m.minimum_order_size == self.minimum_order_size
        &&& m.minimum_tick_size == self.minimum_tick_size
        &&& m.description == self.description
        &&& m.category == self.category
        &&& m.end_date_iso == self.end_date_iso
        &&& m.game_start_time is None
        &&& m.question == self.question
        &&& m.market_slug@ == "market-"@ + self.condition_id@
        &&& m.seconds_delay == zero
        &&& m.icon@ == Seq::<char>::empty()
        &&& m.fpmm@ == Seq::<char>::empty()
        &&& !m.enable_order_book
        &&& !m.archived
        &&& !m.accepting_orders
        &&& m.accepting_order_timestamp is None
        &&& m.maker_base_fee == zero
        &&& m.taker_base_fee == zero
        &&& !m.notifications_enabled
        &&& !m.neg_risk
        &&& m.neg_risk_market_id@ == Seq::<char>::empty()
        &&& m.neg_risk_request_id@ == Seq::<char>::empty()
        &&& m.image@ == Seq::<char>::empty()
        &&& !m.is_50_50_outcome
    }
}

impl Decoder<Market> for RawMarketResponse {
    open spec fn decodable(&self) -> bool {
        true
    }

    /// The market that the response describes; this never fails.
    fn decode(&self) -> (r: Result<Market, PolyfillError>)
        ensures
            r matches Ok(m) && self.market_is(m),
    {
        let tokens = [
            Token {
                token_id: self.tokens[0].token_id.clone(),
                outcome: self.tokens[0].outcome.clone(),
                price: Decimal::zero(),
                winner: false,
            },
            Token {
                token_id: self.tokens[1].token_id.clone(),
                outcome: self.tokens[1].outcome.clone(),
                price: Decimal::zero(),
                winner: false,
            },
        ];
        let mut market_slug = String::from_str("market-");
        market_slug.append(self.condition_id.as_str());
        Ok(Market {
            condition_id: self.condition_id.clone(),
            tokens,
            rewards: Rewards {
                rates: None,
                min_size: Decimal::zero(),
                max_spread: Decimal::one(),
                event_start_date: None,
                event_end_date: None,
                in_game_multiplier: None,
                reward_epoch: None,
            },
            min_incentive_size: None,
            max_incentive_spread: None,
            active: self.active,
            closed: self.closed,
            question_id: self.condition_id.clone(),
            minimum_order_size: self.minimum_order_size,
            minimum_tick_size: self.minimum_tick_size,
            description: self.description.clone(),
            category: clone_option_string(&self.category),
            end_date_iso: clone_option_string(&self.end_date_iso),
            game_start_time: None,
            question: self.question.clone(),
            market_slug,
            seconds_delay: Decimal::zero(),
            icon: String::new(),
            fpmm: String::new(),
            enable_order_book: false,
            archived: false,
            accepting_orders: false,
            accepting_order_timestamp: None,
            maker_base_fee: Decimal::zero(),
            taker_base_fee: Decimal::zero(),
            notifications_enabled: false,
            neg_risk: false,
            neg_risk_market_id: String::new(),
            neg_risk_request_id: String::new(),
            image: String::new(),
            is_50_50_outcome: false,
        })
    }
}

} // verus!
