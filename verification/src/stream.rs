//! Messages of the market and user WebSocket channels: which JSON they are
//! read from, and how a frame holding one message or a batch is read.

use vstd::prelude::*;
use vstd::string::StringExecFns;
use crate::deserializers::{
    ValueErrorKind,
    decimal_from_any, optional_decimal_from_string, optional_number_from_string,
    spec_decimal_from_any, spec_optional_decimal_from_string, spec_optional_number_from_string,
};
use crate::json::{JsonValue, member, parse_json, spec_json_from_slice, spec_member};
use crate::text::{str_equals, to_uppercase, spec_to_uppercase};
use crate::types::{PolyfillError, Side};
use crate::values::Decimal;

verus! {

/// How far a trade has got on chain.
#[derive(Clone, Copy, Debug, PartialEq, Eq, Structural)]
pub enum TradeMessageStatus {
    Matched,
    Mined,
    Confirmed,
    Retrying,
    Failed,
}

/// The kind of a trade message.
#[derive(Clone, Copy, Debug, PartialEq, Eq, Structural)]
pub enum TradeMessageType {
    Trade,
}

/// Whether the user was the taker or a maker of a trade.
#[derive(Clone, Copy, Debug, PartialEq, Eq, Structural)]
pub enum TraderSide {
    Taker,
    Maker,
}

/// A maker order that a trade matched.
#[derive(Debug)]
pub struct MakerOrder {
    pub order_id: String,
    pub owner: String,
    pub matched_amount: Decimal,
    pub price: Decimal,
    pub asset_id: String,
    pub outcome: String,
}

/// A trade of the user channel.
#[derive(Debug)]
pub struct TradeMessage {
    pub id: String,
    pub market: String,
    pub asset_id: String,
    pub side: Side,
    pub size: Decimal,
    pub price: Decimal,
    pub status: TradeMessageStatus,
    pub msg_type: Option<TradeMessageType>,
    pub last_update: Option<u64>,
    pub matchtime: Option<u64>,
    pub timestamp: Option<u64>,
    pub outcome: Option<String>,
    pub owner: Option<String>,
    pub trade_owner: Option<String>,
    pub taker_order_id: Option<String>,
    pub maker_orders: Vec<MakerOrder>,
    pub fee_rate_bps: Option<Decimal>,
    pub transaction_hash: Option<String>,
    pub trader_side: Option<TraderSide>,
}

/// A message of a WebSocket channel. Trades are read field by field; the
/// other kinds keep the members of their JSON object as they came.
#[derive(Debug)]
pub enum StreamMessage {
    Book(Vec<(String, JsonValue)>),
    PriceChange(Vec<(String, JsonValue)>),
    TickSizeChange(Vec<(String, JsonValue)>),
    LastTradePrice(Vec<(String, JsonValue)>),
    BestBidAsk(Vec<(String, JsonValue)>),
    NewMarket(Vec<(String, JsonValue)>),
    MarketResolved(Vec<(String, JsonValue)>),
    Trade(TradeMessage),
    Order(Vec<(String, JsonValue)>),
    Unknown,
}

/// The event types that name a message kind.
pub open spec fn spec_known_event_type(t: Seq<char>) -> bool {
    ||| t == "book"@
    ||| t == "price_change"@
    ||| t == "tick_size_change"@
    ||| t == "last_trade_price"@
    ||| t == "best_bid_ask"@
    ||| t == "new_market"@
    ||| t == "market_resolved"@
    ||| t == "trade"@
    ||| t == "order"@
}

fn known_event_type(t: &str) -> (r: bool)
    ensures
        r == spec_known_event_type(t@),
{
    str_equals(t, "book") || str_equals(t, "price_change") || str_equals(t, "tick_size_change")
        || str_equals(t, "last_trade_price") || str_equals(t, "best_bid_ask") || str_equals(t, "new_market")
        || str_equals(t, "market_resolved") || str_equals(t, "trade") || str_equals(t, "order")
}

/// The `event_type` member of an object, where it is a string.
pub open spec fn spec_event_type(m: Seq<(String, JsonValue)>) -> Option<Seq<char>> {
    match spec_member(m, "event_type"@) {
        Some(JsonValue::String(s)) => Some(s@),
        _ => None,
    }
}

fn event_type<'a>(m: &'a Vec<(String, JsonValue)>) -> (r: Option<&'a str>)
    ensures
        match spec_event_type(m@) {
            Some(t) => r matches Some(x) && x@ == t,
            None => r is None,
        },
{
    match member(m, "event_type") {
        Some(JsonValue::String(s)) => Some(s.as_str()),
        _ => None,
    }
}

// ---------------------------------------------------------------- fields

/// A member that must be a string.
pub open spec fn spec_string_field(m: Seq<(String, JsonValue)>, key: Seq<char>) -> Option<String> {
    match spec_member(m, key) {
        Some(JsonValue::String(s)) => Some(s),
        _ => None,
    }
}

/// A member that may be missing or `null`, or else must be a string; the
/// outer `None` is a failure.
pub open spec fn spec_optional_string_field(m: Seq<(String, JsonValue)>, key: Seq<char>) -> Option<Option<String>> {
    match spec_member(m, key) {
        None => Some(None),
        Some(JsonValue::Null) => Some(None),
        Some(JsonValue::String(s)) => Some(Some(s)),
        _ => None,
    }
}

/// The side member: `BUY` or `SELL`, exactly.
pub open spec fn spec_side_field(m: Seq<(String, JsonValue)>) -> Option<Side> {
    match spec_member(m, "side"@) {
        Some(JsonValue::String(s)) => if s@ == "BUY"@ {
            Some(Side::BUY)
        } else if s@ == "SELL"@ {
            Some(Side::SELL)
        } else {
            None
        },
        _ => None,
    }
}

/// A member that must be a decimal, as text or as a number.
pub open spec fn spec_decimal_field(m: Seq<(String, JsonValue)>, key: Seq<char>) -> Option<Decimal> {
    match spec_member(m, key) {
        Some(v) => match spec_decimal_from_any(v) {
            Ok(d) => Some(d),
            Err(_) => None,
        },
        None => None,
    }
}

/// An optional decimal member; the outer `None` is a failure.
pub open spec fn spec_optional_decimal_field(m: Seq<(String, JsonValue)>, key: Seq<char>) -> Option<Option<Decimal>> {
    match spec_member(m, key) {
        Some(v) => match spec_optional_decimal_from_string(v) {
            Ok(d) => Some(d),
            Err(_) => None,
        },
        None => Some(None),
    }
}

/// An optional unsigned integer member, as a number or as text; the outer
/// `None` is a failure.
pub open spec fn spec_optional_number_field(m: Seq<(String, JsonValue)>, key: Seq<char>) -> Option<Option<u64>> {
    match spec_member(m, key) {
        Some(v) => match spec_optional_number_from_string(v) {
            Ok(x) => Some(x),
            Err(_) => None,
        },
        None => Some(None),
    }
}

/// The trade status that an uppercased word names.
pub open spec fn spec_trade_status(u: Seq<char>) -> Option<TradeMessageStatus> {
    if u == "MATCHED"@ {
        Some(TradeMessageStatus::Matched)
    } else if u == "MINED"@ {
        Some(TradeMessageStatus::Mined)
    } else if u == "CONFIRMED"@ {
        Some(TradeMessageStatus::Confirmed)
    } else if u == "RETRYING"@ {
        Some(TradeMessageStatus::Retrying)
    } else if u == "FAILED"@ {
        Some(TradeMessageStatus::Failed)
    } else {
        None
    }
}

/// The status member, in any case; missing or `null` reads as matched.
pub open spec fn spec_status_field(m: Seq<(String, JsonValue)>) -> Option<TradeMessageStatus> {
    match spec_member(m, "status"@) {
        None => Some(TradeMessageStatus::Matched),
        Some(JsonValue::Null) => Some(TradeMessageStatus::Matched),
        Some(JsonValue::String(s)) => spec_trade_status(spec_to_uppercase(s@)),
        _ => None,
    }
}

/// The `type` member: `TRADE`, or missing or `null`.
pub open spec fn spec_type_field(m: Seq<(String, JsonValue)>) -> Option<Option<TradeMessageType>> {
    match spec_member(m, "type"@) {
        None => Some(None),
        Some(JsonValue::Null) => Some(None),
        Some(JsonValue::String(s)) => if s@ == "TRADE"@ {
            Some(Some(TradeMessageType::Trade))
        } else {
            None
        },
        _ => None,
    }
}

/// The `trader_side` member: `TAKER` or `MAKER`, or missing or `null`.
pub open spec fn spec_trader_side_field(m: Seq<(String, JsonValue)>) -> Option<Option<TraderSide>> {
    match spec_member(m, "trader_side"@) {
        None => Some(None),
        Some(JsonValue::Null) => Some(None),
        Some(JsonValue::String(s)) => if s@ == "TAKER"@ {
            Some(Some(TraderSide::Taker))
        } else if s@ == "MAKER"@ {
            Some(Some(TraderSide::Maker))
        } else {
            None
        },
        _ => None,
    }
}

/// The maker orders of a trade: missing or `null` reads as none.
pub open spec fn spec_maker_items(m: Seq<(String, JsonValue)>) -> Option<Seq<JsonValue>> {
    match spec_member(m, "maker_orders"@) {
        None => Some(Seq::empty()),
        Some(JsonValue::Null) => Some(Seq::empty()),
        Some(JsonValue::Array(items)) => Some(items@),
        _ => None,
    }
}

/// A maker order can be read from this value.
pub open spec fn spec_maker_order_ok(v: JsonValue) -> bool {
    v matches JsonValue::Object(m) && {
        &&& spec_string_field(m@, "order_id"@) is Some
        &&& spec_string_field(m@, "owner"@) is Some
        &&& spec_decimal_field(m@, "matched_amount"@) is Some
        &&& spec_decimal_field(m@, "price"@) is Some
        &&& spec_string_field(m@, "asset_id"@) is Some
        &&& spec_string_field(m@, "outcome"@) is Some
    }
}

/// The maker order that this value describes.
pub open spec fn spec_maker_order_is(v: JsonValue, o: MakerOrder) -> bool {
    v matches JsonValue::Object(m) && {
        &&& spec_string_field(m@, "order_id"@) == Some(o.order_id)
        &&& spec_string_field(m@, "owner"@) == Some(o.owner)
        &&& spec_decimal_field(m@, "matched_amount"@) == Some(o.matched_amount)
        &&& spec_decimal_field(m@, "price"@) == Some(o.price)
        &&& spec_string_field(m@, "asset_id"@) == Some(o.asset_id)
        &&& spec_string_field(m@, "outcome"@) == Some(o.outcome)
    }
}

/// Every maker order of a trade can be read.
pub open spec fn spec_maker_items_ok(m: Seq<(String, JsonValue)>) -> bool {
    match spec_maker_items(m) {
        Some(items) => forall|i: int| 0 <= i < items.len() ==> spec_maker_order_ok(#[trigger] items[i]),
        None => false,
    }
}

/// The maker orders are those that the members of a trade describe.
pub open spec fn spec_maker_orders_are(m: Seq<(String, JsonValue)>, orders: Seq<MakerOrder>) -> bool {
    match spec_maker_items(m) {
        Some(items) => items.len() == orders.len()
            && forall|i: int| 0 <= i < items.len() ==> spec_maker_order_is(#[trigger] items[i], orders[i]),
        None => false,
    }
}

/// A trade can be read from the members of this object.
pub open spec fn spec_trade_ok(m: Seq<(String, JsonValue)>) -> bool {
    &&& spec_string_field(m, "id"@) is Some
    &&& spec_string_field(m, "market"@) is Some
    &&& spec_string_field(m, "asset_id"@) is Some
    &&& spec_side_field(m) is Some
    &&& spec_decimal_field(m, "size"@) is Some
    &&& spec_decimal_field(m, "price"@) is Some
    &&& spec_status_field(m) is Some
    &&& spec_type_field(m) is Some
    &&& spec_optional_number_field(m, "last_update"@) is Some
    &&& spec_optional_number_field(m, "match_time"@) is Some
    &&& spec_optional_number_field(m, "timestamp"@) is Some
    &&& spec_optional_string_field(m, "outcome"@) is Some
    &&& spec_optional_string_field(m, "owner"@) is Some
    &&& spec_optional_string_field(m, "trade_owner"@) is Some
    &&& spec_optional_string_field(m, "taker_order_id"@) is Some
    &&& spec_maker_items_ok(m)
    &&& spec_optional_decimal_field(m, "fee_rate_bps"@) is Some
    &&& spec_optional_string_field(m, "transaction_hash"@) is Some
    &&& spec_trader_side_field(m) is Some
}

/// The trade that the members of this object describe.
pub open spec fn spec_trade_is(m: Seq<(String, JsonValue)>, t: TradeMessage) -> bool {
    &&& spec_string_field(m, "id"@) == Some(t.id)
    &&& spec_string_field(m, "market"@) == Some(t.market)
    &&& spec_string_field(m, "asset_id"@) == Some(t.asset_id)
    &&& spec_side_field(m) == Some(t.side)
    &&& spec_decimal_field(m, "size"@) == Some(t.size)
    &&& spec_decimal_field(m, "price"@) == Some(t.price)
    &&& spec_status_field(m) == Some(t.status)
    &&& spec_type_field(m) == Some(t.msg_type)
    &&& spec_optional_number_field(m, "last_update"@) == Some(t.last_update)
    &&& spec_optional_number_field(m, "match_time"@) == Some(t.matchtime)
    &&& spec_optional_number_field(m, "timestamp"@) == Some(t.timestamp)
    &&& spec_optional_string_field(m, "outcome"@) == Some(t.outcome)
    &&& spec_optional_string_field(m, "owner"@) == Some(t.owner)
    &&& spec_optional_string_field(m, "trade_owner"@) == Some(t.trade_owner)
    &&& spec_optional_string_field(m, "taker_order_id"@) == Some(t.taker_order_id)
    &&& spec_maker_orders_are(m, t.maker_orders@)
    &&& spec_optional_decimal_field(m, "fee_rate_bps"@) == Some(t.fee_rate_bps)
    &&& spec_optional_string_field(m, "transaction_hash"@) == Some(t.transaction_hash)
    &&& spec_trader_side_field(m) == Some(t.trader_side)
}

fn missing_field(key: &str) -> (r: String)
    ensures
        r@ == "missing or invalid field `"@ + key@ + "`"@,
{
    let mut message = String::from_str("missing or invalid field `");
    message.append(key);
    message.append("`");
    message
}

fn string_field(m: &Vec<(String, JsonValue)>, key: &str) -> (r: Result<String, String>)
    ensures
        match spec_string_field(m@, key@) {
            Some(s) => r == Ok::<String, String>(s),
            None => r is Err,
        },
{
    match member(m, key) {
        Some(JsonValue::String(s)) => Ok(s.clone()),
        _ => Err(missing_field(key)),
    }
}

fn optional_string_field(m: &Vec<(String, JsonValue)>, key: &str) -> (r: Result<Option<String>, String>)
    ensures
        match spec_optional_string_field(m@, key@) {
            Some(s) => r == Ok::<Option<String>, String>(s),
            None => r is Err,
        },
{
    match member(m, key) {
        None => Ok(None),
        Some(JsonValue::Null) => Ok(None),
        Some(JsonValue::String(s)) => Ok(Some(s.clone())),
        _ => Err(missing_field(key)),
    }
}

fn side_field(m: &Vec<(String, JsonValue)>) -> (r: Result<Side, String>)
    ensures
        match spec_side_field(m@) {
            Some(s) => r == Ok::<Side, String>(s),
            None => r is Err,
        },
{
    match member(m, "side") {
        Some(JsonValue::String(s)) => {
            if str_equals(s.as_str(), "BUY") {
                Ok(Side::BUY)
            } else if str_equals(s.as_str(), "SELL") {
                Ok(Side::SELL)
            } else {
                Err(missing_field("side"))
            }
        },
        _ => Err(missing_field("side")),
    }
}

fn decimal_field(m: &Vec<(String, JsonValue)>, key: &str) -> (r: Result<Decimal, String>)
    ensures
        match spec_decimal_field(m@, key@) {
            Some(d) => r == Ok::<Decimal, String>(d),
            None => r is Err,
        },
{
    match member(m, key) {
        Some(v) => match decimal_from_any(v) {
            Ok(d) => Ok(d),
            Err(_) => Err(missing_field(key)),
        },
        None => Err(missing_field(key)),
    }
}

fn optional_decimal_field(m: &Vec<(String, JsonValue)>, key: &str) -> (r: Result<Option<Decimal>, String>)
    ensures
        match spec_optional_decimal_field(m@, key@) {
            Some(d) => r == Ok::<Option<Decimal>, String>(d),
            None => r is Err,
        },
{
    match member(m, key) {
        Some(v) => match optional_decimal_from_string(v) {
            Ok(d) => Ok(d),
            Err(_) => Err(missing_field(key)),
        },
        None => Ok(None),
    }
}

fn optional_number_field(m: &Vec<(String, JsonValue)>, key: &str) -> (r: Result<Option<u64>, String>)
    ensures
        match spec_optional_number_field(m@, key@) {
            Some(x) => r == Ok::<Option<u64>, String>(x),
            None => r is Err,
        },
{
    match member(m, key) {
        Some(v) => match optional_number_from_string(v) {
            Ok(x) => Ok(x),
            Err(_) => Err(missing_field(key)),
        },
        None => Ok(None),
    }
}

/// The trade status that an uppercased word names.
pub fn trade_status(u: &str) -> (r: Option<TradeMessageStatus>)
    ensures
        r == spec_trade_status(u@),
{
    if str_equals(u, "MATCHED") {
        Some(TradeMessageStatus::Matched)
    } else if str_equals(u, "MINED") {
        Some(TradeMessageStatus::Mined)
    } else if str_equals(u, "CONFIRMED") {
        Some(TradeMessageStatus::Confirmed)
    } else if str_equals(u, "RETRYING") {
        Some(TradeMessageStatus::Retrying)
    } else if str_equals(u, "FAILED") {
        Some(TradeMessageStatus::Failed)
    } else {
        None
    }
}

fn status_field(m: &Vec<(String, JsonValue)>) -> (r: Result<TradeMessageStatus, String>)
    ensures
        match spec_status_field(m@) {
            Some(s) => r == Ok::<TradeMessageStatus, String>(s),
            None => r is Err,
        },
{
    match member(m, "status") {
        None => Ok(TradeMessageStatus::Matched),
        Some(JsonValue::Null) => Ok(TradeMessageStatus::Matched),
        Some(JsonValue::String(s)) => {
            let upper = to_uppercase(s.as_str());
            match trade_status(upper.as_str()) {
                Some(st) => Ok(st),
                None => Err(missing_field("status")),
            }
        },
        _ => Err(missing_field("status")),
    }
}

fn type_field(m: &Vec<(String, JsonValue)>) -> (r: Result<Option<TradeMessageType>, String>)
    ensures
        match spec_type_field(m@) {
            Some(t) => r == Ok::<Option<TradeMessageType>, String>(t),
            None => r is Err,
        },
{
    match member(m, "type") {
        None => Ok(None),
        Some(JsonValue::Null) => Ok(None),
        Some(JsonValue::String(s)) => {
            if str_equals(s.as_str(), "TRADE") {
                Ok(Some(TradeMessageType::Trade))
            } else {
                Err(missing_field("type"))
            }
        },
        _ => Err(missing_field("type")),
    }
}

fn trader_side_field(m: &Vec<(String, JsonValue)>) -> (r: Result<Option<TraderSide>, String>)
    ensures
        match spec_trader_side_field(m@) {
            Some(t) => r == Ok::<Option<TraderSide>, String>(t),
            None => r is Err,
        },
{
    match member(m, "trader_side") {
        None => Ok(None),
        Some(JsonValue::Null) => Ok(None),
        Some(JsonValue::String(s)) => {
            if str_equals(s.as_str(), "TAKER") {
                Ok(Some(TraderSide::Taker))
            } else if str_equals(s.as_str(), "MAKER") {
                Ok(Some(TraderSide::Maker))
            } else {
                Err(missing_field("trader_side"))
            }
        },
        _ => Err(missing_field("trader_side")),
    }
}

fn maker_order(v: &JsonValue) -> (r: Result<MakerOrder, String>)
    ensures
        spec_maker_order_ok(*v) <==> r is Ok,
        r matches Ok(o) ==> spec_maker_order_is(*v, o),
{
    match v {
        JsonValue::Object(m) => {
            let order_id = string_field(m, "order_id")?;
            let owner = string_field(m, "owner")?;
            let matched_amount = decimal_field(m, "matched_amount")?;
            let price = decimal_field(m, "price")?;
            let asset_id = string_field(m, "asset_id")?;
            let outcome = string_field(m, "outcome")?;
            Ok(MakerOrder { order_id, owner, matched_amount, price, asset_id, outcome })
        },
        _ => Err(String::from_str("maker order is not an object")),
    }
}

fn maker_orders(m: &Vec<(String, JsonValue)>) -> (r: Result<Vec<MakerOrder>, String>)
    ensures
        spec_maker_items_ok(m@) <==> r is Ok,
        r matches Ok(orders) ==> spec_maker_orders_are(m@, orders@),
{
    match member(m, "maker_orders") {
        None => Ok(Vec::new()),
        Some(JsonValue::Null) => Ok(Vec::new()),
        Some(JsonValue::Array(items)) => {
            let mut out: Vec<MakerOrder> = Vec::new();
            let mut i: usize = 0;
            while i < items.len()
                invariant
                    spec_maker_items(m@) == Some(items@),
                    0 <= i <= items@.len(),
                    out@.len() == i,
                    forall|j: int| 0 <= j < i ==> spec_maker_order_ok(#[trigger] items@[j]),
                    forall|j: int| 0 <= j < i ==> spec_maker_order_is(#[trigger] items@[j], out@[j]),
                decreases items@.len() - i,
            {
                let o = match maker_order(&items[i]) {
                    Ok(o) => o,
                    Err(e) => {
                        assert(!spec_maker_order_ok(items@[i as int]));
                        proof {
                            if spec_maker_items_ok(m@) {
                                let its = spec_maker_items(m@)->0;
                                assert(its == items@);
                                assert(spec_maker_order_ok(its[i as int]));
                            }
                        }
                        return Err(e);
                    },
                };
                out.push(o);
                i = i + 1;
            }
            Ok(out)
        },
        _ => Err(missing_field("maker_orders")),
    }
}

/// Reads a trade from the members of its JSON object. Unknown members are
/// ignored; a missing or mistyped member fails the whole trade.
pub fn trade_from_members(m: &Vec<(String, JsonValue)>) -> (r: Result<TradeMessage, String>)
    ensures
        spec_trade_ok(m@) <==> r is Ok,
        r matches Ok(t) ==> spec_trade_is(m@, t),
{
    let id = string_field(m, "id")?;
    let market = string_field(m, "market")?;
    let asset_id = string_field(m, "asset_id")?;
    let side = side_field(m)?;
    let size = decimal_field(m, "size")?;
    let price = decimal_field(m, "price")?;
    let status = status_field(m)?;
    let msg_type = type_field(m)?;
    let last_update = optional_number_field(m, "last_update")?;
    let matchtime = optional_number_field(m, "match_time")?;
    let timestamp = optional_number_field(m, "timestamp")?;
    let outcome = optional_string_field(m, "outcome")?;
    let owner = optional_string_field(m, "owner")?;
    let trade_owner = optional_string_field(m, "trade_owner")?;
    let taker_order_id = optional_string_field(m, "taker_order_id")?;
    let maker_orders = maker_orders(m)?;
    let fee_rate_bps = optional_decimal_field(m, "fee_rate_bps")?;
    let transaction_hash = optional_string_field(m, "transaction_hash")?;
    let trader_side = trader_side_field(m)?;
    Ok(TradeMessage {
        id,
        market,
        asset_id,
        side,
        size,
        price,
        status,
        msg_type,
        last_update,
        matchtime,
        timestamp,
        outcome,
        owner,
        trade_owner,
        taker_order_id,
        maker_orders,
        fee_rate_bps,
        transaction_hash,
        trader_side,
    })
}


// ---------------------------------------------------------------- messages

/// The message that the members of an object with this event type make.
pub open spec fn spec_message_is(m: Vec<(String, JsonValue)>, et: Seq<char>, msg: StreamMessage) -> bool {
    if et == "book"@ {
        msg == StreamMessage::Book(m)
    } else if et == "price_change"@ {
        msg == StreamMessage::PriceChange(m)
    } else if et == "tick_size_change"@ {
        msg == StreamMessage::TickSizeChange(m)
    } else if et == "last_trade_price"@ {
        msg == StreamMessage::LastTradePrice(m)
    } else if et == "best_bid_ask"@ {
        msg == StreamMessage::BestBidAsk(m)
    } else if et == "new_market"@ {
        msg == StreamMessage::NewMarket(m)
    } else if et == "market_resolved"@ {
        msg == StreamMessage::MarketResolved(m)
    } else if et == "trade"@ {
        msg matches StreamMessage::Trade(t) && spec_trade_is(m@, t)
    } else if et == "order"@ {
        msg == StreamMessage::Order(m)
    } else {
        msg is Unknown
    }
}

/// A message can be made from the members of an object with this event
/// type: only a trade can fail.
pub open spec fn spec_message_ok(m: Seq<(String, JsonValue)>, et: Seq<char>) -> bool {
    et == "trade"@ ==> spec_trade_ok(m)
}

enum MessageKind {
    Book,
    PriceChange,
    TickSizeChange,
    LastTradePrice,
    BestBidAsk,
    NewMarket,
    MarketResolved,
    Trade,
    Order,
    Unknown,
}

spec fn spec_kind_of(et: Seq<char>) -> MessageKind {
    if et == "book"@ {
        MessageKind::Book
    } else if et == "price_change"@ {
        MessageKind::PriceChange
    } else if et == "tick_size_change"@ {
        MessageKind::TickSizeChange
    } else if et == "last_trade_price"@ {
        MessageKind::LastTradePrice
    } else if et == "best_bid_ask"@ {
        MessageKind::BestBidAsk
    } else if et == "new_market"@ {
        MessageKind::NewMarket
    } else if et == "market_resolved"@ {
        MessageKind::MarketResolved
    } else if et == "trade"@ {
        MessageKind::Trade
    } else if et == "order"@ {
        MessageKind::Order
    } else {
        MessageKind::Unknown
    }
}

fn kind_of(et: &str) -> (r: MessageKind)
    ensures
        r == spec_kind_of(et@),
{
    if str_equals(et, "book") {
        MessageKind::Book
    } else if str_equals(et, "price_change") {
        MessageKind::PriceChange
    } else if str_equals(et, "tick_size_change") {
        MessageKind::TickSizeChange
    } else if str_equals(et, "last_trade_price") {
        MessageKind::LastTradePrice
    } else if str_equals(et, "best_bid_ask") {
        MessageKind::BestBidAsk
    } else if str_equals(et, "new_market") {
        MessageKind::NewMarket
    } else if str_equals(et, "market_resolved") {
        MessageKind::MarketResolved
    } else if str_equals(et, "trade") {
        MessageKind::Trade
    } else if str_equals(et, "order") {
        MessageKind::Order
    } else {
        MessageKind::Unknown
    }
}

/// Reads a message of the given event type from the members of its object.
fn message_from_members(m: Vec<(String, JsonValue)>, Ghost(et): Ghost<Seq<char>>, kind: MessageKind) -> (r: Result<StreamMessage, String>)
    requires
        kind == spec_kind_of(et),
    ensures
        spec_message_ok(m@, et) <==> r is Ok,
        r matches Ok(msg) ==> spec_message_is(m, et, msg),
{
    proof {
        reveal_strlit("book");
        reveal_strlit("price_change");
        reveal_strlit("tick_size_change");
        reveal_strlit("last_trade_price");
        reveal_strlit("best_bid_ask");
        reveal_strlit("new_market");
        reveal_strlit("market_resolved");
        reveal_strlit("trade");
        reveal_strlit("order");
        assert("book"@[0] != "trade"@[0] || "book"@.len() != "trade"@.len());
        assert("price_change"@[0] != "trade"@[0] || "price_change"@.len() != "trade"@.len());
        assert("tick_size_change"@[0] != "trade"@[0] || "tick_size_change"@.len() != "trade"@.len());
        assert("last_trade_price"@[0] != "trade"@[0] || "last_trade_price"@.len() != "trade"@.len());
        assert("best_bid_ask"@[0] != "trade"@[0] || "best_bid_ask"@.len() != "trade"@.len());
        assert("new_market"@[0] != "trade"@[0] || "new_market"@.len() != "trade"@.len());
        assert("market_resolved"@[0] != "trade"@[0] || "market_resolved"@.len() != "trade"@.len());
        assert("order"@[0] != "trade"@[0] || "order"@.len() != "trade"@.len());
    }
    match kind {
        MessageKind::Book => Ok(StreamMessage::Book(m)),
        MessageKind::PriceChange => Ok(StreamMessage::PriceChange(m)),
        MessageKind::TickSizeChange => Ok(StreamMessage::TickSizeChange(m)),
        MessageKind::LastTradePrice => Ok(StreamMessage::LastTradePrice(m)),
        MessageKind::BestBidAsk => Ok(StreamMessage::BestBidAsk(m)),
        MessageKind::NewMarket => Ok(StreamMessage::NewMarket(m)),
        MessageKind::MarketResolved => Ok(StreamMessage::MarketResolved(m)),
        MessageKind::Trade => match trade_from_members(&m) {
            Ok(t) => Ok(StreamMessage::Trade(t)),
            Err(e) => Err(e),
        },
        MessageKind::Order => Ok(StreamMessage::Order(m)),
        MessageKind::Unknown => Ok(StreamMessage::Unknown),
    }
}

/// A batch keeps this element: an object whose event type is a known string
/// and from which the message can be read.
pub open spec fn spec_batch_keeps(x: JsonValue) -> bool {
    x matches JsonValue::Object(m) && spec_event_type(m@) matches Some(et)
        && spec_known_event_type(et) && spec_message_ok(m@, et)
}

/// The message is the one that a kept element makes.
pub open spec fn spec_batch_element_is(x: JsonValue, msg: StreamMessage) -> bool {
    x matches JsonValue::Object(m) && spec_event_type(m@) matches Some(et) && spec_message_is(m, et, msg)
}

/// The messages of a batch are those of its kept elements, in order.
pub open spec fn spec_batch_is(items: Seq<JsonValue>, out: Seq<StreamMessage>) -> bool
    decreases items.len(),
{
    if items.len() == 0 {
        out.len() == 0
    } else if spec_batch_keeps(items.last()) {
        &&& out.len() > 0
        &&& spec_batch_element_is(items.last(), out.last())
        &&& spec_batch_is(items.drop_last(), out.drop_last())
    } else {
        spec_batch_is(items.drop_last(), out)
    }
}

/// The outcome of reading the messages of a parsed frame: an object without
/// a string `event_type` gives no message; an object of an unknown event type
/// gives no message; a known one gives its message, or a JSON error where it
/// cannot be read; an array gives the messages of the elements that can be
/// read, skipping the others; any other JSON value gives no message.
pub open spec fn spec_messages_from_json_is(value: JsonValue, r: Result<Vec<StreamMessage>, PolyfillError>) -> bool {
    match value {
        JsonValue::Object(m) => match spec_event_type(m@) {
            None => r matches Ok(v) && v@.len() == 0,
            Some(et) => if !spec_message_ok(m@, et) {
                r matches Err(e) && e is Json
            } else if !spec_known_event_type(et) {
                r matches Ok(v) && v@.len() == 0
            } else {
                r matches Ok(v) && v@.len() == 1 && spec_message_is(m, et, v@[0])
            },
        },
        JsonValue::Array(items) => r matches Ok(v) && spec_batch_is(items@, v@),
        _ => r matches Ok(v) && v@.len() == 0,
    }
}

/// The outcome of reading a frame of the stream: text that is not JSON is a
/// JSON error; otherwise the messages of the parsed document.
pub open spec fn spec_stream_result_is(bytes: Seq<u8>, r: Result<Vec<StreamMessage>, PolyfillError>) -> bool {
    match spec_json_from_slice(bytes) {
        None => r matches Err(e) && e is Json,
        Some(value) => spec_messages_from_json_is(value, r),
    }
}

proof fn lemma_unknown_kind(et: Seq<char>)
    ensures
        !spec_known_event_type(et) <==> spec_kind_of(et) is Unknown,
{
}

/// Reads the messages of one frame of a WebSocket channel: a single JSON
/// object or a batch array. Unknown event types are ignored, and a batch
/// skips the entries that cannot be read instead of failing.
pub fn parse_stream_messages_bytes(bytes: &[u8]) -> (r: Result<Vec<StreamMessage>, PolyfillError>)
    ensures
        spec_stream_result_is(bytes@, r),
{
    match parse_json(bytes) {
        Ok(value) => messages_from_json(value),
        Err(e) => Err(PolyfillError::Json { message: e.to_string() }),
    }
}

/// Reads the messages of a parsed frame: a single JSON object or a batch
/// array. Unknown event types are ignored, and a batch skips the entries that
/// cannot be read instead of failing.
pub fn messages_from_json(value: JsonValue) -> (r: Result<Vec<StreamMessage>, PolyfillError>)
    ensures
        spec_messages_from_json_is(value, r),
{
    match value {
        JsonValue::Object(m) => {
            let kind = match event_type(&m) {
                None => return Ok(Vec::new()),
                Some(t) => kind_of(t),
            };
            let ghost et = spec_event_type(m@)->0;
            proof {
                lemma_unknown_kind(et);
            }
            match message_from_members(m, Ghost(et), kind) {
                Err(message) => Err(PolyfillError::Json { message }),
                Ok(StreamMessage::Unknown) => Ok(Vec::new()),
                Ok(msg) => {
                    let mut v: Vec<StreamMessage> = Vec::new();
                    v.push(msg);
                    Ok(v)
                },
            }
        },
        JsonValue::Array(arr) => {
            let ghost items = arr@;
            let mut out: Vec<StreamMessage> = Vec::new();
            for elem in it: arr.into_iter()
                invariant
                    it.seq() == items,
                    spec_batch_is(items.subrange(0, it.index() as int), out@),
            {
                let ghost k = it.index() as int;
                let ghost prefix = items.subrange(0, k + 1);
                assert(prefix.drop_last() =~= items.subrange(0, k));
                assert(prefix.last() == elem);
                if let JsonValue::Object(m) = elem {
                    let kind_opt = match event_type(&m) {
                        Some(t) => if known_event_type(t) { Some(kind_of(t)) } else { None },
                        None => None,
                    };
                    if let Some(kind) = kind_opt {
                        let ghost et = spec_event_type(m@)->0;
                        proof {
                            lemma_unknown_kind(et);
                        }
                        match message_from_members(m, Ghost(et), kind) {
                            Ok(msg) => {
                                let ghost before = out@;
                                out.push(msg);
                                assert(out@.drop_last() =~= before);
                            },
                            Err(_) => {},
                        }
                    }
                }
            }
            assert(items.subrange(0, items.len() as int) =~= items);
            Ok(out)
        },
        _ => Ok(Vec::new()),
    }
}

proof fn lemma_batch_shape(items: Seq<JsonValue>, out: Seq<StreamMessage>)
    requires
        spec_batch_is(items, out),
    ensures
        out.len() <= items.len(),
        forall|i: int| 0 <= i < out.len() ==> !(#[trigger] out[i] is Unknown),
    decreases items.len(),
{
    if items.len() > 0 {
        if spec_batch_keeps(items.last()) {
            lemma_batch_shape(items.drop_last(), out.drop_last());
            assert forall|i: int| 0 <= i < out.len() implies !(#[trigger] out[i] is Unknown) by {
                if i < out.len() - 1 {
                    assert(out[i] == out.drop_last()[i]);
                } else {
                    let x = items.last();
                    let m = x->Object_0;
                    let et = spec_event_type(m@)->0;
                    reveal_strlit("book");
                    reveal_strlit("price_change");
                    reveal_strlit("tick_size_change");
                    reveal_strlit("last_trade_price");
                    reveal_strlit("best_bid_ask");
                    reveal_strlit("new_market");
                    reveal_strlit("market_resolved");
                    reveal_strlit("trade");
                    reveal_strlit("order");
                }
            }
        } else {
            lemma_batch_shape(items.drop_last(), out);
        }
    }
}

/// Law: a batch never fails as a whole. Once the frame is a JSON array, the
/// outcome is a list of messages, no longer than the array, holding no
/// message of unknown kind: entries that cannot be read are skipped.
pub proof fn law_batch_never_fails(bytes: Seq<u8>, r: Result<Vec<StreamMessage>, PolyfillError>)
    requires
        spec_stream_result_is(bytes, r),
        spec_json_from_slice(bytes) matches Some(JsonValue::Array(_)),
    ensures
        r matches Ok(v) && v@.len() <= spec_json_from_slice(bytes)->0->Array_0@.len()
            && forall|i: int| 0 <= i < v@.len() ==> !(#[trigger] v@[i] is Unknown),
{
    let items = spec_json_from_slice(bytes)->0->Array_0@;
    lemma_batch_shape(items, r->Ok_0@);
}

/// Law: a single message of an event type that names no known kind is
/// ignored: the outcome is the empty list.
pub proof fn law_unknown_event_type_is_ignored(bytes: Seq<u8>, r: Result<Vec<StreamMessage>, PolyfillError>)
    requires
        spec_stream_result_is(bytes, r),
        spec_json_from_slice(bytes) matches Some(JsonValue::Object(m))
            && spec_event_type(m@) matches Some(et) && !spec_known_event_type(et),
    ensures
        r matches Ok(v) && v@.len() == 0,
{
}

/// Law: a single JSON object without a string `event_type` gives no message.
pub proof fn law_untyped_object_is_ignored(bytes: Seq<u8>, r: Result<Vec<StreamMessage>, PolyfillError>)
    requires
        spec_stream_result_is(bytes, r),
        spec_json_from_slice(bytes) matches Some(JsonValue::Object(m)) && spec_event_type(m@) is None,
    ensures
        r matches Ok(v) && v@.len() == 0,
{
}

/// The elements of a batch that it keeps, in order.
pub open spec fn spec_kept_elements(items: Seq<JsonValue>) -> Seq<JsonValue>
    decreases items.len(),
{
    if items.len() == 0 {
        Seq::empty()
    } else if spec_batch_keeps(items.last()) {
        spec_kept_elements(items.drop_last()).push(items.last())
    } else {
        spec_kept_elements(items.drop_last())
    }
}

/// The messages of single reads laid end to end; a failed read gives none.
pub open spec fn spec_joined_reads(reads: Seq<Result<Vec<StreamMessage>, PolyfillError>>) -> Seq<StreamMessage>
    decreases reads.len(),
{
    if reads.len() == 0 {
        Seq::empty()
    } else {
        spec_joined_reads(reads.drop_last()) + match reads.last() {
            Ok(v) => v@,
            Err(_) => Seq::empty(),
        }
    }
}

/// An object whose `event_type` is one of the known kinds.
pub open spec fn spec_known_object(x: JsonValue) -> bool {
    x matches JsonValue::Object(m) && spec_event_type(m@) matches Some(et) && spec_known_event_type(et)
}

/// Law: reading a batch of objects of known kinds is reading each of them
/// alone and joining the results, with failed reads giving nothing: the
/// batch yields as many messages as the single reads do together, and its
/// k-th message and the k-th message of the joined reads are both the message
/// of the k-th element that reads without error.
pub proof fn law_batch_is_the_single_reads_joined(
    items: Seq<JsonValue>,
    out: Seq<StreamMessage>,
    reads: Seq<Result<Vec<StreamMessage>, PolyfillError>>,
)
    requires
        spec_batch_is(items, out),
        reads.len() == items.len(),
        forall|i: int| 0 <= i < items.len() ==> #[trigger] spec_known_object(items[i]),
        forall|i: int| 0 <= i < items.len() ==> spec_messages_from_json_is(items[i], #[trigger] reads[i]),
    ensures
        out.len() == spec_kept_elements(items).len(),
        spec_joined_reads(reads).len() == spec_kept_elements(items).len(),
        forall|k: int| 0 <= k < out.len() ==> {
            &&& spec_batch_element_is(spec_kept_elements(items)[k], #[trigger] out[k])
            &&& spec_batch_element_is(spec_kept_elements(items)[k], spec_joined_reads(reads)[k])
        },
    decreases items.len(),
{
    if items.len() > 0 {
        let n = items.len() - 1;
        let x = items.last();
        let r = reads.last();
        assert(spec_known_object(items[n]));
        assert(spec_messages_from_json_is(items[n], reads[n]));
        assert forall|i: int| 0 <= i < items.drop_last().len() implies #[trigger] spec_known_object(items.drop_last()[i]) by {
            assert(spec_known_object(items[i]));
        }
        assert forall|i: int| 0 <= i < items.drop_last().len() implies spec_messages_from_json_is(items.drop_last()[i], #[trigger] reads.drop_last()[i]) by {
            assert(spec_messages_from_json_is(items[i], reads[i]));
        }
        let kept = spec_kept_elements(items);
        let kept0 = spec_kept_elements(items.drop_last());
        let joined0 = spec_joined_reads(reads.drop_last());
        if spec_batch_keeps(x) {
            law_batch_is_the_single_reads_joined(items.drop_last(), out.drop_last(), reads.drop_last());
            assert(r matches Ok(v) && v@.len() == 1 && spec_batch_element_is(x, v@[0]));
            assert forall|k: int| 0 <= k < out.len() implies {
                &&& spec_batch_element_is(kept[k], #[trigger] out[k])
                &&& spec_batch_element_is(kept[k], spec_joined_reads(reads)[k])
            } by {
                if k < out.len() - 1 {
                    assert(out[k] == out.drop_last()[k]);
                    assert(kept[k] == kept0[k]);
                    assert(spec_joined_reads(reads)[k] == joined0[k]);
                }
            }
        } else {
            law_batch_is_the_single_reads_joined(items.drop_last(), out, reads.drop_last());
            assert(r is Err);
            assert(spec_joined_reads(reads) =~= joined0);
        }
    }
}

proof fn lemma_event_type_texts()
    ensures
        "book"@.len() == 4,
        "price_change"@.len() == 12 && "price_change"@[0] == 'p',
        "tick_size_change"@.len() == 16 && "tick_size_change"@[0] == 't',
        "last_trade_price"@.len() == 16 && "last_trade_price"@[0] == 'l',
        "best_bid_ask"@.len() == 12 && "best_bid_ask"@[0] == 'b',
        "new_market"@.len() == 10,
        "market_resolved"@.len() == 15,
        "trade"@.len() == 5 && "trade"@[0] == 't',
        "order"@.len() == 5 && "order"@[0] == 'o',
{
    reveal_strlit("book");
    reveal_strlit("price_change");
    reveal_strlit("tick_size_change");
    reveal_strlit("last_trade_price");
    reveal_strlit("best_bid_ask");
    reveal_strlit("new_market");
    reveal_strlit("market_resolved");
    reveal_strlit("trade");
    reveal_strlit("order");
}

/// Law: each known event type reads as its own kind of message. A frame
/// holding one object whose `event_type` is `book` gives exactly the message
/// `Book` of that object's members, `price_change` gives `PriceChange`,
/// `tick_size_change` gives `TickSizeChange`, `last_trade_price` gives
/// `LastTradePrice`, `best_bid_ask` gives `BestBidAsk`, `new_market` gives
/// `NewMarket`, `market_resolved` gives `MarketResolved` and `order` gives
/// `Order`; a readable `trade` gives one `Trade`.
pub proof fn law_each_event_type_reads_as_its_own_kind(
    bytes: Seq<u8>,
    m: Vec<(String, JsonValue)>,
    r: Result<Vec<StreamMessage>, PolyfillError>,
)
    requires
        spec_stream_result_is(bytes, r),
        spec_json_from_slice(bytes) == Some(JsonValue::Object(m)),
    ensures
        spec_event_type(m@) == Some("book"@) ==> (r matches Ok(v) && v@ == seq![StreamMessage::Book(m)]),
        spec_event_type(m@) == Some("price_change"@) ==> (r matches Ok(v) && v@ == seq![StreamMessage::PriceChange(m)]),
        spec_event_type(m@) == Some("tick_size_change"@) ==> (r matches Ok(v) && v@ == seq![StreamMessage::TickSizeChange(m)]),
        spec_event_type(m@) == Some("last_trade_price"@) ==> (r matches Ok(v) && v@ == seq![StreamMessage::LastTradePrice(m)]),
        spec_event_type(m@) == Some("best_bid_ask"@) ==> (r matches Ok(v) && v@ == seq![StreamMessage::BestBidAsk(m)]),
        spec_event_type(m@) == Some("new_market"@) ==> (r matches Ok(v) && v@ == seq![StreamMessage::NewMarket(m)]),
        spec_event_type(m@) == Some("market_resolved"@) ==> (r matches Ok(v) && v@ == seq![StreamMessage::MarketResolved(m)]),
        spec_event_type(m@) == Some("order"@) ==> (r matches Ok(v) && v@ == seq![StreamMessage::Order(m)]),
        spec_event_type(m@) == Some("trade"@) && spec_trade_ok(m@) ==> (r matches Ok(v) && v@.len() == 1 && v@[0] is Trade),
{
    lemma_event_type_texts();
    if r is Ok {
        let v = r->Ok_0@;
        if v.len() == 1 {
            assert(v =~= seq![v[0]]);
        }
    }
}

/// Law: every field of a maker order is the member of the same name: the ids,
/// owner and outcome are those strings, the matched amount and the price the
/// decimals that the members `matched_amount` and `price` read as.
pub proof fn law_maker_order_fields_are_their_members(v: JsonValue, o: MakerOrder)
    requires
        spec_maker_order_is(v, o),
    ensures
        v matches JsonValue::Object(m) && {
            &&& spec_member(m@, "order_id"@) == Some(JsonValue::String(o.order_id))
            &&& spec_member(m@, "owner"@) == Some(JsonValue::String(o.owner))
            &&& spec_member(m@, "matched_amount"@) matches Some(x) && spec_decimal_from_any(x) == Ok::<Decimal, ValueErrorKind>(o.matched_amount)
            &&& spec_member(m@, "price"@) matches Some(x) && spec_decimal_from_any(x) == Ok::<Decimal, ValueErrorKind>(o.price)
            &&& spec_member(m@, "asset_id"@) == Some(JsonValue::String(o.asset_id))
            &&& spec_member(m@, "outcome"@) == Some(JsonValue::String(o.outcome))
        },
{
}

/// Law: every field of a trade is the member of the same name: the ids and
/// market are those strings, the size and price the decimals that `size` and
/// `price` read as, and the i-th maker order holds, field by field, the
/// members of the i-th element of `maker_orders`.
pub proof fn law_trade_fields_are_their_members(m: Seq<(String, JsonValue)>, t: TradeMessage)
    requires
        spec_trade_is(m, t),
    ensures
        spec_member(m, "id"@) == Some(JsonValue::String(t.id)),
        spec_member(m, "market"@) == Some(JsonValue::String(t.market)),
        spec_member(m, "asset_id"@) == Some(JsonValue::String(t.asset_id)),
        spec_member(m, "size"@) matches Some(x) && spec_decimal_from_any(x) == Ok::<Decimal, ValueErrorKind>(t.size),
        spec_member(m, "price"@) matches Some(x) && spec_decimal_from_any(x) == Ok::<Decimal, ValueErrorKind>(t.price),
        forall|i: int| 0 <= i < t.maker_orders@.len() ==> (spec_member(m, "maker_orders"@) matches Some(JsonValue::Array(items))
            && (items@[i] matches JsonValue::Object(mo) && {
                &&& spec_member(mo@, "order_id"@) == Some(JsonValue::String(#[trigger] t.maker_orders@[i].order_id))
                &&& spec_member(mo@, "matched_amount"@) matches Some(x)
                    && spec_decimal_from_any(x) == Ok::<Decimal, ValueErrorKind>(t.maker_orders@[i].matched_amount)
                &&& spec_member(mo@, "price"@) matches Some(x)
                    && spec_decimal_from_any(x) == Ok::<Decimal, ValueErrorKind>(t.maker_orders@[i].price)
            })),
{
    assert forall|i: int| 0 <= i < t.maker_orders@.len() implies (spec_member(m, "maker_orders"@) matches Some(JsonValue::Array(items))
            && (items@[i] matches JsonValue::Object(mo) && {
                &&& spec_member(mo@, "order_id"@) == Some(JsonValue::String(#[trigger] t.maker_orders@[i].order_id))
                &&& spec_member(mo@, "matched_amount"@) matches Some(x)
                    && spec_decimal_from_any(x) == Ok::<Decimal, ValueErrorKind>(t.maker_orders@[i].matched_amount)
                &&& spec_member(mo@, "price"@) matches Some(x)
                    && spec_decimal_from_any(x) == Ok::<Decimal, ValueErrorKind>(t.maker_orders@[i].price)
            })) by {
        let items = spec_maker_items(m)->0;
        assert(spec_maker_order_is(items[i], t.maker_orders@[i]));
        law_maker_order_fields_are_their_members(items[i], t.maker_orders@[i]);
    }
}

/// Reads the messages of one frame given as text; see `parse_stream_messages_bytes`.
pub fn parse_stream_messages(raw: &str) -> (r: Result<Vec<StreamMessage>, PolyfillError>)
    ensures
        spec_stream_result_is(vstd::utf8::encode_utf8(raw@), r),
{
    parse_stream_messages_bytes(raw.as_bytes())
}

} // verus!
