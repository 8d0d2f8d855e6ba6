//! The streaming session's verified core: the ordered classifier that maps
//! one decoded inbound frame to its typed message, and the read-loop
//! transition function. The order of the match attempts is the explicit
//! contract: administrative event tags, then each market-data shape, then
//! user-data shapes, then trading-acknowledgment tags; anything else is kept
//! raw, so no information is lost.

use vstd::prelude::*;

use crate::json::{json_fields_view, json_seq_view, lemma_json_fields_view, lemma_json_seq_view,
    spec_obj_get, obj_get, Json, JsonValue};
use crate::parse::{parse_json, spec_parse_json};
use crate::ws_models::{opt_str_view, BatchAddResult, BatchCancelResult, CandleData, ExecutionData,
    InstrumentData, OrderBookEntry, TradeData, WsAdminResponse, WsBalancesMessage, WsBookMessage,
    WsCandlesMessage, WsExecutionsMessage, WsIncomingMessage, WsInstrumentsMessage,
    WsTickerMessage, WsTradesMessage, WsUserTradingResponse};

verus! {

/// The string under `key`, when the field is present and a string.
pub open spec fn s_str(f: Seq<(Seq<char>, Json)>, key: Seq<char>) -> Option<Seq<char>> {
    match spec_obj_get(f, key) {
        Some(Json::Str(s)) => Some(s),
        _ => None,
    }
}

/// The unsigned 64-bit number under `key`, when present and in range.
pub open spec fn s_u64(f: Seq<(Seq<char>, Json)>, key: Seq<char>) -> Option<u64> {
    match spec_obj_get(f, key) {
        Some(Json::Int(n)) => if 0 <= n {
            Some(n as u64)
        } else {
            None
        },
        _ => None,
    }
}

/// The unsigned 32-bit number under `key`, when present and in range.
pub open spec fn s_u32(f: Seq<(Seq<char>, Json)>, key: Seq<char>) -> Option<u32> {
    match spec_obj_get(f, key) {
        Some(Json::Int(n)) => if 0 <= n <= u32::MAX {
            Some(n as u32)
        } else {
            None
        },
        _ => None,
    }
}

/// The boolean under `key`, when present and a boolean.
pub open spec fn s_bool(f: Seq<(Seq<char>, Json)>, key: Seq<char>) -> Option<bool> {
    match spec_obj_get(f, key) {
        Some(Json::Bool(b)) => Some(b),
        _ => None,
    }
}

/// An optional string field: absent or null stand for nothing; any other
/// non-string value does not fit.
pub open spec fn s_opt_str(f: Seq<(Seq<char>, Json)>, key: Seq<char>) -> Option<
    Option<Seq<char>>,
> {
    match spec_obj_get(f, key) {
        None => Some(None),
        Some(Json::Null) => Some(None),
        Some(Json::Str(s)) => Some(Some(s)),
        _ => None,
    }
}

/// An optional unsigned 64-bit field.
pub open spec fn s_opt_u64(f: Seq<(Seq<char>, Json)>, key: Seq<char>) -> Option<Option<u64>> {
    match spec_obj_get(f, key) {
        None => Some(None),
        Some(Json::Null) => Some(None),
        Some(Json::Int(n)) => if 0 <= n {
            Some(Some(n as u64))
        } else {
            None
        },
        _ => None,
    }
}

/// An optional unsigned 32-bit field.
pub open spec fn s_opt_u32(f: Seq<(Seq<char>, Json)>, key: Seq<char>) -> Option<Option<u32>> {
    match spec_obj_get(f, key) {
        None => Some(None),
        Some(Json::Null) => Some(None),
        Some(Json::Int(n)) => if 0 <= n <= u32::MAX {
            Some(Some(n as u32))
        } else {
            None
        },
        _ => None,
    }
}

fn get_str(f: &Vec<(String, JsonValue)>, key: &str) -> (r: Option<String>)
    ensures
        match r {
            Some(s) => s_str(json_fields_view(f@), key@) == Some(s@),
            None => s_str(json_fields_view(f@), key@) is None,
        },
{
    match obj_get(f, key) {
        Some(JsonValue::Str(s)) => Some(s.clone()),
        _ => None,
    }
}

fn get_u64(f: &Vec<(String, JsonValue)>, key: &str) -> (r: Option<u64>)
    ensures
        match r {
            Some(n) => s_u64(json_fields_view(f@), key@) == Some(n),
            None => s_u64(json_fields_view(f@), key@) is None,
        },
{
    match obj_get(f, key) {
        Some(JsonValue::Int(n)) => if *n >= 0 {
            Some(*n as u64)
        } else {
            None
        },
        _ => None,
    }
}

fn get_u32(f: &Vec<(String, JsonValue)>, key: &str) -> (r: Option<u32>)
    ensures
        match r {
            Some(n) => s_u32(json_fields_view(f@), key@) == Some(n),
            None => s_u32(json_fields_view(f@), key@) is None,
        },
{
    match obj_get(f, key) {
        Some(JsonValue::Int(n)) => if 0 <= *n && *n <= u32::MAX as i64 {
            Some(*n as u32)
        } else {
            None
        },
        _ => None,
    }
}

fn get_bool(f: &Vec<(String, JsonValue)>, key: &str) -> (r: Option<bool>)
    ensures
        match r {
            Some(b) => s_bool(json_fields_view(f@), key@) == Some(b),
            None => s_bool(json_fields_view(f@), key@) is None,
        },
{
    match obj_get(f, key) {
        Some(JsonValue::Bool(b)) => Some(*b),
        _ => None,
    }
}

fn get_opt_str(f: &Vec<(String, JsonValue)>, key: &str) -> (r: Option<Option<String>>)
    ensures
        match r {
            Some(o) => s_opt_str(json_fields_view(f@), key@) == Some(opt_str_view(&o)),
            None => s_opt_str(json_fields_view(f@), key@) is None,
        },
{
    match obj_get(f, key) {
        None => Some(None),
        Some(JsonValue::Null) => Some(None),
        Some(JsonValue::Str(s)) => Some(Some(s.clone())),
        _ => None,
    }
}

fn get_opt_u64(f: &Vec<(String, JsonValue)>, key: &str) -> (r: Option<Option<u64>>)
    ensures
        match r {
            Some(o) => s_opt_u64(json_fields_view(f@), key@) == Some(o),
            None => s_opt_u64(json_fields_view(f@), key@) is None,
        },
{
    match obj_get(f, key) {
        None => Some(None),
        Some(JsonValue::Null) => Some(None),
        Some(JsonValue::Int(n)) => if *n >= 0 {
            Some(Some(*n as u64))
        } else {
            None
        },
        _ => None,
    }
}

fn get_opt_u32(f: &Vec<(String, JsonValue)>, key: &str) -> (r: Option<Option<u32>>)
    ensures
        match r {
            Some(o) => s_opt_u32(json_fields_view(f@), key@) == Some(o),
            None => s_opt_u32(json_fields_view(f@), key@) is None,
        },
{
    match obj_get(f, key) {
        None => Some(None),
        Some(JsonValue::Null) => Some(None),
        Some(JsonValue::Int(n)) => if 0 <= *n && *n <= u32::MAX as i64 {
            Some(Some(*n as u32))
        } else {
            None
        },
        _ => None,
    }
}

/// String equality against a literal.
fn str_eq(a: &String, b: &str) -> (r: bool)
    ensures
        r == (a@ == b@),
{
    let bs = b.to_owned();
    *a == bs
}

/// The element fits this shape.
pub open spec fn entry_shape(j: Json) -> bool {
    j matches Json::Obj(f) && {
        &&& s_str(f, "price"@) is Some
        &&& s_str(f, "quantity"@) is Some
    }
}

/// The decoded element carries exactly the fields of `j`.
pub open spec fn entry_ok(j: Json, e: OrderBookEntry) -> bool {
    j matches Json::Obj(f) && {
        &&& s_str(f, "price"@) == Some(e.price@)
        &&& s_str(f, "quantity"@) == Some(e.quantity@)
    }
}

/// Every element of the list fits.
pub open spec fn entry_list_shape(items: Seq<Json>) -> bool {
    forall|q: int| 0 <= q < items.len() ==> entry_shape(#[trigger] items[q])
}

/// The decoded list matches the items one for one, in order.
pub open spec fn entry_list_ok(items: Seq<Json>, es: Seq<OrderBookEntry>) -> bool {
    es.len() == items.len() && forall|q: int|
        0 <= q < items.len() ==> entry_ok(#[trigger] items[q], es[q])
}

fn decode_entry(v: &JsonValue) -> (r: Option<OrderBookEntry>)
    ensures
        match r {
            Some(e) => entry_shape(v@) && entry_ok(v@, e),
            None => !entry_shape(v@),
        },
{
    let f = match v {
        JsonValue::Obj(f) => f,
        _ => {
            return None;
        },
    };
    let price = match get_str(f, "price") {
        Some(x) => x,
        None => {
            return None;
        },
    };
    let quantity = match get_str(f, "quantity") {
        Some(x) => x,
        None => {
            return None;
        },
    };
    Some(OrderBookEntry { price, quantity })
}

fn decode_entry_list(items: &Vec<JsonValue>) -> (r: Option<Vec<OrderBookEntry>>)
    ensures
        match r {
            Some(es) => entry_list_shape(json_seq_view(items@)) && entry_list_ok(
                json_seq_view(items@),
                es@,
            ),
            None => !entry_list_shape(json_seq_view(items@)),
        },
{
    let ghost iv = json_seq_view(items@);
    proof {
        lemma_json_seq_view(items@);
    }
    let mut out: Vec<OrderBookEntry> = Vec::new();
    let n = items.len();
    for i in 0..n
        invariant
            n == items@.len(),
            iv == json_seq_view(items@),
            iv.len() == n,
            forall|q: int| 0 <= q < n ==> #[trigger] iv[q] == items@[q]@,
            out@.len() == i,
            forall|q: int| 0 <= q < i ==> entry_shape(#[trigger] iv[q]) && entry_ok(iv[q], out@[q]),
    {
        match decode_entry(&items[i]) {
            Some(e) => {
                out.push(e);
            },
            None => {
                assert(!entry_shape(iv[i as int]));
                return None;
            },
        }
    }
    Some(out)
}

/// The element fits this shape.
pub open spec fn candle_shape(j: Json) -> bool {
    j matches Json::Obj(f) && {
        &&& s_u64(f, "time"@) is Some
        &&& s_str(f, "open"@) is Some
        &&& s_str(f, "high"@) is Some
        &&& s_str(f, "low"@) is Some
        &&& s_str(f, "close"@) is Some
        &&& s_str(f, "volume"@) is Some
    }
}

/// The decoded element carries exactly the fields of `j`.
pub open spec fn candle_ok(j: Json, e: CandleData) -> bool {
    j matches Json::Obj(f) && {
        &&& s_u64(f, "time"@) == Some(e.time)
        &&& s_str(f, "open"@) == Some(e.open@)
        &&& s_str(f, "high"@) == Some(e.high@)
        &&& s_str(f, "low"@) == Some(e.low@)
        &&& s_str(f, "close"@) == Some(e.close@)
        &&& s_str(f, "volume"@) == Some(e.volume@)
    }
}

/// Every element of the list fits.
pub open spec fn candle_list_shape(items: Seq<Json>) -> bool {
    forall|q: int| 0 <= q < items.len() ==> candle_shape(#[trigger] items[q])
}

/// The decoded list matches the items one for one, in order.
pub open spec fn candle_list_ok(items: Seq<Json>, es: Seq<CandleData>) -> bool {
    es.len() == items.len() && forall|q: int|
        0 <= q < items.len() ==> candle_ok(#[trigger] items[q], es[q])
}

fn decode_candle(v: &JsonValue) -> (r: Option<CandleData>)
    ensures
        match r {
            Some(e) => candle_shape(v@) && candle_ok(v@, e),
            None => !candle_shape(v@),
        },
{
    let f = match v {
        JsonValue::Obj(f) => f,
        _ => {
            return None;
        },
    };
    let time = match get_u64(f, "time") {
        Some(x) => x,
        None => {
            return None;
        },
    };
    let open = match get_str(f, "open") {
        Some(x) => x,
        None => {
            return None;
        },
    };
    let high = match get_str(f, "high") {
        Some(x) => x,
        None => {
            return None;
        },
    };
    let low = match get_str(f, "low") {
        Some(x) => x,
        None => {
            return None;
        },
    };
    let close = match get_str(f, "close") {
        Some(x) => x,
        None => {
            return None;
        },
    };
    let volume = match get_str(f, "volume") {
        Some(x) => x,
        None => {
            return None;
        },
    };
    Some(CandleData { time, open, high, low, close, volume })
}

fn decode_candle_list(items: &Vec<JsonValue>) -> (r: Option<Vec<CandleData>>)
    ensures
        match r {
            Some(es) => candle_list_shape(json_seq_view(items@)) && candle_list_ok(
                json_seq_view(items@),
                es@,
            ),
            None => !candle_list_shape(json_seq_view(items@)),
        },
{
    let ghost iv = json_seq_view(items@);
    proof {
        lemma_json_seq_view(items@);
    }
    let mut out: Vec<CandleData> = Vec::new();
    let n = items.len();
    for i in 0..n
        invariant
            n == items@.len(),
            iv == json_seq_view(items@),
            iv.len() == n,
            forall|q: int| 0 <= q < n ==> #[trigger] iv[q] == items@[q]@,
            out@.len() == i,
            forall|q: int| 0 <= q < i ==> candle_shape(#[trigger] iv[q]) && candle_ok(iv[q], out@[q]),
    {
        match decode_candle(&items[i]) {
            Some(e) => {
                out.push(e);
            },
            None => {
                assert(!candle_shape(iv[i as int]));
                return None;
            },
        }
    }
    Some(out)
}

/// The element fits this shape.
pub open spec fn trade_shape(j: Json) -> bool {
    j matches Json::Obj(f) && {
        &&& s_str(f, "price"@) is Some
        &&& s_str(f, "quantity"@) is Some
        &&& s_u64(f, "time"@) is Some
        &&& s_str(f, "side"@) is Some
    }
}

/// The decoded element carries exactly the fields of `j`.
pub open spec fn trade_ok(j: Json, e: TradeData) -> bool {
    j matches Json::Obj(f) && {
        &&& s_str(f, "price"@) == Some(e.price@)
        &&& s_str(f, "quantity"@) == Some(e.quantity@)
        &&& s_u64(f, "time"@) == Some(e.time)
        &&& s_str(f, "side"@) == Some(e.side@)
    }
}

/// Every element of the list fits.
pub open spec fn trade_list_shape(items: Seq<Json>) -> bool {
    forall|q: int| 0 <= q < items.len() ==> trade_shape(#[trigger] items[q])
}

/// The decoded list matches the items one for one, in order.
pub open spec fn trade_list_ok(items: Seq<Json>, es: Seq<TradeData>) -> bool {
    es.len() == items.len() && forall|q: int|
        0 <= q < items.len() ==> trade_ok(#[trigger] items[q], es[q])
}

fn decode_trade(v: &JsonValue) -> (r: Option<TradeData>)
    ensures
        match r {
            Some(e) => trade_shape(v@) && trade_ok(v@, e),
            None => !trade_shape(v@),
        },
{
    let f = match v {
        JsonValue::Obj(f) => f,
        _ => {
            return None;
        },
    };
    let price = match get_str(f, "price") {
        Some(x) => x,
        None => {
            return None;
        },
    };
    let quantity = match get_str(f, "quantity") {
        Some(x) => x,
        None => {
            return None;
        },
    };
    let time = match get_u64(f, "time") {
        Some(x) => x,
        None => {
            return None;
        },
    };
    let side = match get_str(f, "side") {
        Some(x) => x,
        None => {
            return None;
        },
    };
    Some(TradeData { price, quantity, time, side })
}

fn decode_trade_list(items: &Vec<JsonValue>) -> (r: Option<Vec<TradeData>>)
    ensures
        match r {
            Some(es) => trade_list_shape(json_seq_view(items@)) && trade_list_ok(
                json_seq_view(items@),
                es@,
            ),
            None => !trade_list_shape(json_seq_view(items@)),
        },
{
    let ghost iv = json_seq_view(items@);
    proof {
        lemma_json_seq_view(items@);
    }
    let mut out: Vec<TradeData> = Vec::new();
    let n = items.len();
    for i in 0..n
        invariant
            n == items@.len(),
            iv == json_seq_view(items@),
            iv.len() == n,
            forall|q: int| 0 <= q < n ==> #[trigger] iv[q] == items@[q]@,
            out@.len() == i,
            forall|q: int| 0 <= q < i ==> trade_shape(#[trigger] iv[q]) && trade_ok(iv[q], out@[q]),
    {
        match decode_trade(&items[i]) {
            Some(e) => {
                out.push(e);
            },
            None => {
                assert(!trade_shape(iv[i as int]));
                return None;
            },
        }
    }
    Some(out)
}

/// The element fits this shape.
pub open spec fn instrument_shape(j: Json) -> bool {
    j matches Json::Obj(f) && {
        &&& s_str(f, "symbol"@) is Some
        &&& s_str(f, "status"@) is Some
        &&& s_str(f, "base_currency"@) is Some
        &&& s_str(f, "quote_currency"@) is Some
        &&& s_opt_u32(f, "price_decimals"@) is Some
        &&& s_opt_u32(f, "quantity_decimals"@) is Some
        &&& s_bool(f, "marginable"@) is Some
        &&& s_str(f, "margin_ratio"@) is Some
        &&& s_str(f, "max_leverage"@) is Some
        &&& s_str(f, "min_leverage"@) is Some
        &&& s_str(f, "maker_fee"@) is Some
        &&& s_str(f, "taker_fee"@) is Some
        &&& s_str(f, "min_volume"@) is Some
        &&& s_str(f, "max_volume"@) is Some
        &&& s_str(f, "tick_size"@) is Some
        &&& s_str(f, "lot_size"@) is Some
    }
}

/// The decoded element carries exactly the fields of `j`.
pub open spec fn instrument_ok(j: Json, e: InstrumentData) -> bool {
    j matches Json::Obj(f) && {
        &&& s_str(f, "symbol"@) == Some(e.symbol@)
        &&& s_str(f, "status"@) == Some(e.status@)
        &&& s_str(f, "base_currency"@) == Some(e.base_currency@)
        &&& s_str(f, "quote_currency"@) == Some(e.quote_currency@)
        &&& s_opt_u32(f, "price_decimals"@) == Some(e.price_decimals)
        &&& s_opt_u32(f, "quantity_decimals"@) == Some(e.quantity_decimals)
        &&& s_bool(f, "marginable"@) == Some(e.marginable)
        &&& s_str(f, "margin_ratio"@) == Some(e.margin_ratio@)
        &&& s_str(f, "max_leverage"@) == Some(e.max_leverage@)
        &&& s_str(f, "min_leverage"@) == Some(e.min_leverage@)
        &&& s_str(f, "maker_fee"@) == Some(e.maker_fee@)
        &&& s_str(f, "taker_fee"@) == Some(e.taker_fee@)
        &&& s_str(f, "min_volume"@) == Some(e.min_volume@)
        &&& s_str(f, "max_volume"@) == Some(e.max_volume@)
        &&& s_str(f, "tick_size"@) == Some(e.tick_size@)
        &&& s_str(f, "lot_size"@) == Some(e.lot_size@)
    }
}

/// Every element of the list fits.
pub open spec fn instrument_list_shape(items: Seq<Json>) -> bool {
    forall|q: int| 0 <= q < items.len() ==> instrument_shape(#[trigger] items[q])
}

/// The decoded list matches the items one for one, in order.
pub open spec fn instrument_list_ok(items: Seq<Json>, es: Seq<InstrumentData>) -> bool {
    es.len() == items.len() && forall|q: int|
        0 <= q < items.len() ==> instrument_ok(#[trigger] items[q], es[q])
}

fn decode_instrument(v: &JsonValue) -> (r: Option<InstrumentData>)
    ensures
        match r {
            Some(e) => instrument_shape(v@) && instrument_ok(v@, e),
            None => !instrument_shape(v@),
        },
{
    let f = match v {
        JsonValue::Obj(f) => f,
        _ => {
            return None;
        },
    };
    let symbol = match get_str(f, "symbol") {
        Some(x) => x,
        None => {
            return None;
        },
    };
    let status = match get_str(f, "status") {
        Some(x) => x,
        None => {
            return None;
        },
    };
    let base_currency = match get_str(f, "base_currency") {
        Some(x) => x,
        None => {
            return None;
        },
    };
    let quote_currency = match get_str(f, "quote_currency") {
        Some(x) => x,
        None => {
            return None;
        },
    };
    let price_decimals = match get_opt_u32(f, "price_decimals") {
        Some(x) => x,
        None => {
            return None;
        },
    };
    let quantity_decimals = match get_opt_u32(f, "quantity_decimals") {
        Some(x) => x,
        None => {
            return None;
        },
    };
    let marginable = match get_bool(f, "marginable") {
        Some(x) => x,
        None => {
            return None;
        },
    };
    let margin_ratio = match get_str(f, "margin_ratio") {
        Some(x) => x,
        None => {
            return None;
        },
    };
    let max_leverage = match get_str(f, "max_leverage") {
        Some(x) => x,
        None => {
            return None;
        },
    };
    let min_leverage = match get_str(f, "min_leverage") {
        Some(x) => x,
        None => {
            return None;
        },
    };
    let maker_fee = match get_str(f, "maker_fee") {
        Some(x) => x,
        None => {
            return None;
        },
    };
    let taker_fee = match get_str(f, "taker_fee") {
        Some(x) => x,
        None => {
            return None;
        },
    };
    let min_volume = match get_str(f, "min_volume") {
        Some(x) => x,
        None => {
            return None;
        },
    };
    let max_volume = match get_str(f, "max_volume") {
        Some(x) => x,
        None => {
            return None;
        },
    };
    let tick_size = match get_str(f, "tick_size") {
        Some(x) => x,
        None => {
            return None;
        },
    };
    let lot_size = match get_str(f, "lot_size") {
        Some(x) => x,
        None => {
            return None;
        },
    };
    Some(InstrumentData { symbol, status, base_currency, quote_currency, price_decimals, quantity_decimals, marginable, margin_ratio, max_leverage, min_leverage, maker_fee, taker_fee, min_volume, max_volume, tick_size, lot_size })
}

fn decode_instrument_list(items: &Vec<JsonValue>) -> (r: Option<Vec<InstrumentData>>)
    ensures
        match r {
            Some(es) => instrument_list_shape(json_seq_view(items@)) && instrument_list_ok(
                json_seq_view(items@),
                es@,
            ),
            None => !instrument_list_shape(json_seq_view(items@)),
        },
{
    let ghost iv = json_seq_view(items@);
    proof {
        lemma_json_seq_view(items@);
    }
    let mut out: Vec<InstrumentData> = Vec::new();
    let n = items.len();
    for i in 0..n
        invariant
            n == items@.len(),
            iv == json_seq_view(items@),
            iv.len() == n,
            forall|q: int| 0 <= q < n ==> #[trigger] iv[q] == items@[q]@,
            out@.len() == i,
            forall|q: int| 0 <= q < i ==> instrument_shape(#[trigger] iv[q]) && instrument_ok(iv[q], out@[q]),
    {
        match decode_instrument(&items[i]) {
            Some(e) => {
                out.push(e);
            },
            None => {
                assert(!instrument_shape(iv[i as int]));
                return None;
            },
        }
    }
    Some(out)
}

/// The element fits this shape.
pub open spec fn execution_shape(j: Json) -> bool {
    j matches Json::Obj(f) && {
        &&& s_str(f, "symbol"@) is Some
        &&& s_str(f, "order_id"@) is Some
        &&& s_str(f, "exec_id"@) is Some
        &&& s_str(f, "quantity"@) is Some
        &&& s_str(f, "price"@) is Some
        &&& s_str(f, "side"@) is Some
        &&& s_u64(f, "time"@) is Some
        &&& s_str(f, "cost"@) is Some
        &&& s_str(f, "fee"@) is Some
        &&& s_str(f, "fee_currency"@) is Some
        &&& s_str(f, "liquidity"@) is Some
    }
}

/// The decoded element carries exactly the fields of `j`.
pub open spec fn execution_ok(j: Json, e: ExecutionData) -> bool {
    j matches Json::Obj(f) && {
        &&& s_str(f, "symbol"@) == Some(e.symbol@)
        &&& s_str(f, "order_id"@) == Some(e.order_id@)
        &&& s_str(f, "exec_id"@) == Some(e.exec_id@)
        &&& s_str(f, "quantity"@) == Some(e.quantity@)
        &&& s_str(f, "price"@) == Some(e.price@)
        &&& s_str(f, "side"@) == Some(e.side@)
        &&& s_u64(f, "time"@) == Some(e.time)
        &&& s_str(f, "cost"@) == Some(e.cost@)
        &&& s_str(f, "fee"@) == Some(e.fee@)
        &&& s_str(f, "fee_currency"@) == Some(e.fee_currency@)
        &&& s_str(f, "liquidity"@) == Some(e.liquidity@)
    }
}

/// Every element of the list fits.
pub open spec fn execution_list_shape(items: Seq<Json>) -> bool {
    forall|q: int| 0 <= q < items.len() ==> execution_shape(#[trigger] items[q])
}

/// The decoded list matches the items one for one, in order.
pub open spec fn execution_list_ok(items: Seq<Json>, es: Seq<ExecutionData>) -> bool {
    es.len() == items.len() && forall|q: int|
        0 <= q < items.len() ==> execution_ok(#[trigger] items[q], es[q])
}

fn decode_execution(v: &JsonValue) -> (r: Option<ExecutionData>)
    ensures
        match r {
            Some(e) => execution_shape(v@) && execution_ok(v@, e),
            None => !execution_shape(v@),
        },
{
    let f = match v {
        JsonValue::Obj(f) => f,
        _ => {
            return None;
        },
    };
    let symbol = match get_str(f, "symbol") {
        Some(x) => x,
        None => {
            return None;
        },
    };
    let order_id = match get_str(f, "order_id") {
        Some(x) => x,
        None => {
            return None;
        },
    };
    let exec_id = match get_str(f, "exec_id") {
        Some(x) => x,
        None => {
            return None;
        },
    };
    let quantity = match get_str(f, "quantity") {
        Some(x) => x,
        None => {
            return None;
        },
    };
    let price = match get_str(f, "price") {
        Some(x) => x,
        None => {
            return None;
        },
    };
    let side = match get_str(f, "side") {
        Some(x) => x,
        None => {
            return None;
        },
    };
    let time = match get_u64(f, "time") {
        Some(x) => x,
        None => {
            return None;
        },
    };
    let cost = match get_str(f, "cost") {
        Some(x) => x,
        None => {
            return None;
        },
    };
    let fee = match get_str(f, "fee") {
        Some(x) => x,
        None => {
            return None;
        },
    };
    let fee_currency = match get_str(f, "fee_currency") {
        Some(x) => x,
        None => {
            return None;
        },
    };
    let liquidity = match get_str(f, "liquidity") {
        Some(x) => x,
        None => {
            return None;
        },
    };
    Some(ExecutionData { symbol, order_id, exec_id, quantity, price, side, time, cost, fee, fee_currency, liquidity })
}

fn decode_execution_list(items: &Vec<JsonValue>) -> (r: Option<Vec<ExecutionData>>)
    ensures
        match r {
            Some(es) => execution_list_shape(json_seq_view(items@)) && execution_list_ok(
                json_seq_view(items@),
                es@,
            ),
            None => !execution_list_shape(json_seq_view(items@)),
        },
{
    let ghost iv = json_seq_view(items@);
    proof {
        lemma_json_seq_view(items@);
    }
    let mut out: Vec<ExecutionData> = Vec::new();
    let n = items.len();
    for i in 0..n
        invariant
            n == items@.len(),
            iv == json_seq_view(items@),
            iv.len() == n,
            forall|q: int| 0 <= q < n ==> #[trigger] iv[q] == items@[q]@,
            out@.len() == i,
            forall|q: int| 0 <= q < i ==> execution_shape(#[trigger] iv[q]) && execution_ok(iv[q], out@[q]),
    {
        match decode_execution(&items[i]) {
            Some(e) => {
                out.push(e);
            },
            None => {
                assert(!execution_shape(iv[i as int]));
                return None;
            },
        }
    }
    Some(out)
}

/// The element fits this shape.
pub open spec fn add_result_shape(j: Json) -> bool {
    j matches Json::Obj(f) && {
        &&& s_opt_str(f, "txid"@) is Some
        &&& s_opt_str(f, "error_message"@) is Some
        &&& s_opt_str(f, "status"@) is Some
        &&& s_opt_str(f, "client_order_id"@) is Some
    }
}

/// The decoded element carries exactly the fields of `j`.
pub open spec fn add_result_ok(j: Json, e: BatchAddResult) -> bool {
    j matches Json::Obj(f) && {
        &&& s_opt_str(f, "txid"@) == Some(opt_str_view(&e.txid))
        &&& s_opt_str(f, "error_message"@) == Some(opt_str_view(&e.error_message))
        &&& s_opt_str(f, "status"@) == Some(opt_str_view(&e.status))
        &&& s_opt_str(f, "client_order_id"@) == Some(opt_str_view(&e.client_order_id))
    }
}

/// Every element of the list fits.
pub open spec fn add_result_list_shape(items: Seq<Json>) -> bool {
    forall|q: int| 0 <= q < items.len() ==> add_result_shape(#[trigger] items[q])
}

/// The decoded list matches the items one for one, in order.
pub open spec fn add_result_list_ok(items: Seq<Json>, es: Seq<BatchAddResult>) -> bool {
    es.len() == items.len() && forall|q: int|
        0 <= q < items.len() ==> add_result_ok(#[trigger] items[q], es[q])
}

fn decode_add_result(v: &JsonValue) -> (r: Option<BatchAddResult>)
    ensures
        match r {
            Some(e) => add_result_shape(v@) && add_result_ok(v@, e),
            None => !add_result_shape(v@),
        },
{
    let f = match v {
        JsonValue::Obj(f) => f,
        _ => {
            return None;
        },
    };
    let txid = match get_opt_str(f, "txid") {
        Some(x) => x,
        None => {
            return None;
        },
    };
    let error_message = match get_opt_str(f, "error_message") {
        Some(x) => x,
        None => {
            return None;
        },
    };
    let status = match get_opt_str(f, "status") {
        Some(x) => x,
        None => {
            return None;
        },
    };
    let client_order_id = match get_opt_str(f, "client_order_id") {
        Some(x) => x,
        None => {
            return None;
        },
    };
    Some(BatchAddResult { txid, error_message, status, client_order_id })
}

fn decode_add_result_list(items: &Vec<JsonValue>) -> (r: Option<Vec<BatchAddResult>>)
    ensures
        match r {
            Some(es) => add_result_list_shape(json_seq_view(items@)) && add_result_list_ok(
                json_seq_view(items@),
                es@,
            ),
            None => !add_result_list_shape(json_seq_view(items@)),
        },
{
    let ghost iv = json_seq_view(items@);
    proof {
        lemma_json_seq_view(items@);
    }
    let mut out: Vec<BatchAddResult> = Vec::new();
    let n = items.len();
    for i in 0..n
        invariant
            n == items@.len(),
            iv == json_seq_view(items@),
            iv.len() == n,
            forall|q: int| 0 <= q < n ==> #[trigger] iv[q] == items@[q]@,
            out@.len() == i,
            forall|q: int| 0 <= q < i ==> add_result_shape(#[trigger] iv[q]) && add_result_ok(iv[q], out@[q]),
    {
        match decode_add_result(&items[i]) {
            Some(e) => {
                out.push(e);
            },
            None => {
                assert(!add_result_shape(iv[i as int]));
                return None;
            },
        }
    }
    Some(out)
}

/// The element fits this shape.
pub open spec fn cancel_result_shape(j: Json) -> bool {
    j matches Json::Obj(f) && {
        &&& s_opt_str(f, "txid"@) is Some
        &&& s_opt_str(f, "error_message"@) is Some
    }
}

/// The decoded element carries exactly the fields of `j`.
pub open spec fn cancel_result_ok(j: Json, e: BatchCancelResult) -> bool {
    j matches Json::Obj(f) && {
        &&& s_opt_str(f, "txid"@) == Some(opt_str_view(&e.txid))
        &&& s_opt_str(f, "error_message"@) == Some(opt_str_view(&e.error_message))
    }
}

/// Every element of the list fits.
pub open spec fn cancel_result_list_shape(items: Seq<Json>) -> bool {
    forall|q: int| 0 <= q < items.len() ==> cancel_result_shape(#[trigger] items[q])
}

/// The decoded list matches the items one for one, in order.
pub open spec fn cancel_result_list_ok(items: Seq<Json>, es: Seq<BatchCancelResult>) -> bool {
    es.len() == items.len() && forall|q: int|
        0 <= q < items.len() ==> cancel_result_ok(#[trigger] items[q], es[q])
}

fn decode_cancel_result(v: &JsonValue) -> (r: Option<BatchCancelResult>)
    ensures
        match r {
            Some(e) => cancel_result_shape(v@) && cancel_result_ok(v@, e),
            None => !cancel_result_shape(v@),
        },
{
    let f = match v {
        JsonValue::Obj(f) => f,
        _ => {
            return None;
        },
    };
    let txid = match get_opt_str(f, "txid") {
        Some(x) => x,
        None => {
            return None;
        },
    };
    let error_message = match get_opt_str(f, "error_message") {
        Some(x) => x,
        None => {
            return None;
        },
    };
    Some(BatchCancelResult { txid, error_message })
}

fn decode_cancel_result_list(items: &Vec<JsonValue>) -> (r: Option<Vec<BatchCancelResult>>)
    ensures
        match r {
            Some(es) => cancel_result_list_shape(json_seq_view(items@)) && cancel_result_list_ok(
                json_seq_view(items@),
                es@,
            ),
            None => !cancel_result_list_shape(json_seq_view(items@)),
        },
{
    let ghost iv = json_seq_view(items@);
    proof {
        lemma_json_seq_view(items@);
    }
    let mut out: Vec<BatchCancelResult> = Vec::new();
    let n = items.len();
    for i in 0..n
        invariant
            n == items@.len(),
            iv == json_seq_view(items@),
            iv.len() == n,
            forall|q: int| 0 <= q < n ==> #[trigger] iv[q] == items@[q]@,
            out@.len() == i,
            forall|q: int| 0 <= q < i ==> cancel_result_shape(#[trigger] iv[q]) && cancel_result_ok(iv[q], out@[q]),
    {
        match decode_cancel_result(&items[i]) {
            Some(e) => {
                out.push(e);
            },
            None => {
                assert(!cancel_result_shape(iv[i as int]));
                return None;
            },
        }
    }
    Some(out)
}
/// The frame fits this message shape.
pub open spec fn ticker_msg_shape(f: Seq<(Seq<char>, Json)>) -> bool {
    &&& s_str(f, "channel"@) is Some
    &&& s_str(f, "symbol"@) is Some
    &&& s_str(f, "best_ask_price"@) is Some
    &&& s_str(f, "best_ask_quantity"@) is Some
    &&& s_str(f, "best_bid_price"@) is Some
    &&& s_str(f, "best_bid_quantity"@) is Some
    &&& s_str(f, "last_trade_price"@) is Some
    &&& s_str(f, "last_trade_quantity"@) is Some
    &&& s_str(f, "volume_24h"@) is Some
    &&& s_str(f, "vwap_24h"@) is Some
    &&& s_u64(f, "trades_24h"@) is Some
    &&& s_str(f, "low_24h"@) is Some
    &&& s_str(f, "high_24h"@) is Some
    &&& s_str(f, "open_24h"@) is Some
}

/// The decoded message carries exactly the frame's fields.
pub open spec fn ticker_msg_ok(f: Seq<(Seq<char>, Json)>, m: WsTickerMessage) -> bool {
    &&& s_str(f, "channel"@) == Some(m.channel@)
    &&& s_str(f, "symbol"@) == Some(m.symbol@)
    &&& s_str(f, "best_ask_price"@) == Some(m.best_ask_price@)
    &&& s_str(f, "best_ask_quantity"@) == Some(m.best_ask_quantity@)
    &&& s_str(f, "best_bid_price"@) == Some(m.best_bid_price@)
    &&& s_str(f, "best_bid_quantity"@) == Some(m.best_bid_quantity@)
    &&& s_str(f, "last_trade_price"@) == Some(m.last_trade_price@)
    &&& s_str(f, "last_trade_quantity"@) == Some(m.last_trade_quantity@)
    &&& s_str(f, "volume_24h"@) == Some(m.volume_24h@)
    &&& s_str(f, "vwap_24h"@) == Some(m.vwap_24h@)
    &&& s_u64(f, "trades_24h"@) == Some(m.trades_24h)
    &&& s_str(f, "low_24h"@) == Some(m.low_24h@)
    &&& s_str(f, "high_24h"@) == Some(m.high_24h@)
    &&& s_str(f, "open_24h"@) == Some(m.open_24h@)
}

fn decode_ticker_msg(f: &Vec<(String, JsonValue)>) -> (r: Option<WsTickerMessage>)
    ensures
        match r {
            Some(m) => ticker_msg_shape(json_fields_view(f@)) && ticker_msg_ok(
                json_fields_view(f@),
                m,
            ),
            None => !ticker_msg_shape(json_fields_view(f@)),
        },
{
    let channel = match get_str(f, "channel") {
        Some(x) => x,
        None => {
            return None;
        },
    };
    let symbol = match get_str(f, "symbol") {
        Some(x) => x,
        None => {
            return None;
        },
    };
    let best_ask_price = match get_str(f, "best_ask_price") {
        Some(x) => x,
        None => {
            return None;
        },
    };
    let best_ask_quantity = match get_str(f, "best_ask_quantity") {
        Some(x) => x,
        None => {
            return None;
        },
    };
    let best_bid_price = match get_str(f, "best_bid_price") {
        Some(x) => x,
        None => {
            return None;
        },
    };
    let best_bid_quantity = match get_str(f, "best_bid_quantity") {
        Some(x) => x,
        None => {
            return None;
        },
    };
    let last_trade_price = match get_str(f, "last_trade_price") {
        Some(x) => x,
        None => {
            return None;
        },
    };
    let last_trade_quantity = match get_str(f, "last_trade_quantity") {
        Some(x) => x,
        None => {
            return None;
        },
    };
    let volume_24h = match get_str(f, "volume_24h") {
        Some(x) => x,
        None => {
            return None;
        },
    };
    let vwap_24h = match get_str(f, "vwap_24h") {
        Some(x) => x,
        None => {
            return None;
        },
    };
    let trades_24h = match get_u64(f, "trades_24h") {
        Some(x) => x,
        None => {
            return None;
        },
    };
    let low_24h = match get_str(f, "low_24h") {
        Some(x) => x,
        None => {
            return None;
        },
    };
    let high_24h = match get_str(f, "high_24h") {
        Some(x) => x,
        None => {
            return None;
        },
    };
    let open_24h = match get_str(f, "open_24h") {
        Some(x) => x,
        None => {
            return None;
        },
    };
    Some(WsTickerMessage { channel, symbol, best_ask_price, best_ask_quantity, best_bid_price, best_bid_quantity, last_trade_price, last_trade_quantity, volume_24h, vwap_24h, trades_24h, low_24h, high_24h, open_24h })
}

/// The frame fits this message shape.
pub open spec fn book_msg_shape(f: Seq<(Seq<char>, Json)>) -> bool {
    &&& s_str(f, "channel"@) is Some
    &&& s_str(f, "symbol"@) is Some
    &&& spec_obj_get(f, "bids"@) matches Some(Json::Arr(it)) && entry_list_shape(it)
    &&& spec_obj_get(f, "asks"@) matches Some(Json::Arr(it)) && entry_list_shape(it)
}

/// The decoded message carries exactly the frame's fields.
pub open spec fn book_msg_ok(f: Seq<(Seq<char>, Json)>, m: WsBookMessage) -> bool {
    &&& s_str(f, "channel"@) == Some(m.channel@)
    &&& s_str(f, "symbol"@) == Some(m.symbol@)
    &&& spec_obj_get(f, "bids"@) matches Some(Json::Arr(it)) && entry_list_ok(it, m.bids@)
    &&& spec_obj_get(f, "asks"@) matches Some(Json::Arr(it)) && entry_list_ok(it, m.asks@)
}

fn decode_book_msg(f: &Vec<(String, JsonValue)>) -> (r: Option<WsBookMessage>)
    ensures
        match r {
            Some(m) => book_msg_shape(json_fields_view(f@)) && book_msg_ok(
                json_fields_view(f@),
                m,
            ),
            None => !book_msg_shape(json_fields_view(f@)),
        },
{
    let channel = match get_str(f, "channel") {
        Some(x) => x,
        None => {
            return None;
        },
    };
    let symbol = match get_str(f, "symbol") {
        Some(x) => x,
        None => {
            return None;
        },
    };
    let bids = match obj_get(f, "bids") {
        Some(JsonValue::Arr(items)) => match decode_entry_list(items) {
            Some(v) => v,
            None => {
                return None;
            },
        },
        _ => {
            return None;
        },
    };
    let asks = match obj_get(f, "asks") {
        Some(JsonValue::Arr(items)) => match decode_entry_list(items) {
            Some(v) => v,
            None => {
                return None;
            },
        },
        _ => {
            return None;
        },
    };
    Some(WsBookMessage { channel, symbol, bids, asks })
}

/// The frame fits this message shape.
pub open spec fn candles_msg_shape(f: Seq<(Seq<char>, Json)>) -> bool {
    &&& s_str(f, "channel"@) is Some
    &&& s_str(f, "symbol"@) is Some
    &&& s_u32(f, "interval"@) is Some
    &&& spec_obj_get(f, "data"@) matches Some(Json::Arr(it)) && candle_list_shape(it)
}

/// The decoded message carries exactly the frame's fields.
pub open spec fn candles_msg_ok(f: Seq<(Seq<char>, Json)>, m: WsCandlesMessage) -> bool {
    &&& s_str(f, "channel"@) == Some(m.channel@)
    &&& s_str(f, "symbol"@) == Some(m.symbol@)
    &&& s_u32(f, "interval"@) == Some(m.interval)
    &&& spec_obj_get(f, "data"@) matches Some(Json::Arr(it)) && candle_list_ok(it, m.data@)
}

fn decode_candles_msg(f: &Vec<(String, JsonValue)>) -> (r: Option<WsCandlesMessage>)
    ensures
        match r {
            Some(m) => candles_msg_shape(json_fields_view(f@)) && candles_msg_ok(
                json_fields_view(f@),
                m,
            ),
            None => !candles_msg_shape(json_fields_view(f@)),
        },
{
    let channel = match get_str(f, "channel") {
        Some(x) => x,
        None => {
            return None;
        },
    };
    let symbol = match get_str(f, "symbol") {
        Some(x) => x,
        None => {
            return None;
        },
    };
    let interval = match get_u32(f, "interval") {
        Some(x) => x,
        None => {
            return None;
        },
    };
    let data = match obj_get(f, "data") {
        Some(JsonValue::Arr(items)) => match decode_candle_list(items) {
            Some(v) => v,
            None => {
                return None;
            },
        },
        _ => {
            return None;
        },
    };
    Some(WsCandlesMessage { channel, symbol, interval, data })
}

/// The frame fits this message shape.
pub open spec fn trades_msg_shape(f: Seq<(Seq<char>, Json)>) -> bool {
    &&& s_str(f, "channel"@) is Some
    &&& s_str(f, "symbol"@) is Some
    &&& spec_obj_get(f, "trades"@) matches Some(Json::Arr(it)) && trade_list_shape(it)
}

/// The decoded message carries exactly the frame's fields.
pub open spec fn trades_msg_ok(f: Seq<(Seq<char>, Json)>, m: WsTradesMessage) -> bool {
    &&& s_str(f, "channel"@) == Some(m.channel@)
    &&& s_str(f, "symbol"@) == Some(m.symbol@)
    &&& spec_obj_get(f, "trades"@) matches Some(Json::Arr(it)) && trade_list_ok(it, m.trades@)
}

fn decode_trades_msg(f: &Vec<(String, JsonValue)>) -> (r: Option<WsTradesMessage>)
    ensures
        match r {
            Some(m) => trades_msg_shape(json_fields_view(f@)) && trades_msg_ok(
                json_fields_view(f@),
                m,
            ),
            None => !trades_msg_shape(json_fields_view(f@)),
        },
{
    let channel = match get_str(f, "channel") {
        Some(x) => x,
        None => {
            return None;
        },
    };
    let symbol = match get_str(f, "symbol") {
        Some(x) => x,
        None => {
            return None;
        },
    };
    let trades = match obj_get(f, "trades") {
        Some(JsonValue::Arr(items)) => match decode_trade_list(items) {
            Some(v) => v,
            None => {
                return None;
            },
        },
        _ => {
            return None;
        },
    };
    Some(WsTradesMessage { channel, symbol, trades })
}

/// The frame fits this message shape.
pub open spec fn instruments_msg_shape(f: Seq<(Seq<char>, Json)>) -> bool {
    &&& s_str(f, "channel"@) is Some
    &&& s_opt_str(f, "symbol"@) is Some
    &&& spec_obj_get(f, "data"@) matches Some(Json::Arr(it)) && instrument_list_shape(it)
}

/// The decoded message carries exactly the frame's fields.
pub open spec fn instruments_msg_ok(f: Seq<(Seq<char>, Json)>, m: WsInstrumentsMessage) -> bool {
    &&& s_str(f, "channel"@) == Some(m.channel@)
    &&& s_opt_str(f, "symbol"@) == Some(opt_str_view(&m.symbol))
    &&& spec_obj_get(f, "data"@) matches Some(Json::Arr(it)) && instrument_list_ok(it, m.data@)
}

fn decode_instruments_msg(f: &Vec<(String, JsonValue)>) -> (r: Option<WsInstrumentsMessage>)
    ensures
        match r {
            Some(m) => instruments_msg_shape(json_fields_view(f@)) && instruments_msg_ok(
                json_fields_view(f@),
                m,
            ),
            None => !instruments_msg_shape(json_fields_view(f@)),
        },
{
    let channel = match get_str(f, "channel") {
        Some(x) => x,
        None => {
            return None;
        },
    };
    let symbol = match get_opt_str(f, "symbol") {
        Some(x) => x,
        None => {
            return None;
        },
    };
    let data = match obj_get(f, "data") {
        Some(JsonValue::Arr(items)) => match decode_instrument_list(items) {
            Some(v) => v,
            None => {
                return None;
            },
        },
        _ => {
            return None;
        },
    };
    Some(WsInstrumentsMessage { channel, symbol, data })
}

/// The frame fits this message shape.
pub open spec fn executions_msg_shape(f: Seq<(Seq<char>, Json)>) -> bool {
    &&& s_str(f, "channel"@) is Some
    &&& spec_obj_get(f, "executions"@) matches Some(Json::Arr(it)) && execution_list_shape(it)
}

/// The decoded message carries exactly the frame's fields.
pub open spec fn executions_msg_ok(f: Seq<(Seq<char>, Json)>, m: WsExecutionsMessage) -> bool {
    &&& s_str(f, "channel"@) == Some(m.channel@)
    &&& spec_obj_get(f, "executions"@) matches Some(Json::Arr(it)) && execution_list_ok(it, m.executions@)
}

fn decode_executions_msg(f: &Vec<(String, JsonValue)>) -> (r: Option<WsExecutionsMessage>)
    ensures
        match r {
            Some(m) => executions_msg_shape(json_fields_view(f@)) && executions_msg_ok(
                json_fields_view(f@),
                m,
            ),
            None => !executions_msg_shape(json_fields_view(f@)),
        },
{
    let channel = match get_str(f, "channel") {
        Some(x) => x,
        None => {
            return None;
        },
    };
    let executions = match obj_get(f, "executions") {
        Some(JsonValue::Arr(items)) => match decode_execution_list(items) {
            Some(v) => v,
            None => {
                return None;
            },
        },
        _ => {
            return None;
        },
    };
    Some(WsExecutionsMessage { channel, executions })
}

/// Every balance value is a string.
pub open spec fn balances_map_shape(f2: Seq<(Seq<char>, Json)>) -> bool {
    forall|q: int| 0 <= q < f2.len() ==> (#[trigger] f2[q]).1 is Str
}

/// The decoded pairs mirror the balance object, key by key, in wire order.
pub open spec fn balances_map_ok(f2: Seq<(Seq<char>, Json)>, bs: Seq<(String, String)>) -> bool {
    bs.len() == f2.len() && forall|q: int|
        0 <= q < f2.len() ==> (#[trigger] bs[q]).0@ == f2[q].0 && Json::Str(bs[q].1@) == f2[q].1
}

/// The frame fits the balances shape.
pub open spec fn balances_msg_shape(f: Seq<(Seq<char>, Json)>) -> bool {
    &&& s_str(f, "channel"@) is Some
    &&& spec_obj_get(f, "balances"@) matches Some(Json::Obj(f2)) && balances_map_shape(f2)
}

/// The decoded message carries exactly the frame's fields.
pub open spec fn balances_msg_ok(f: Seq<(Seq<char>, Json)>, m: WsBalancesMessage) -> bool {
    &&& s_str(f, "channel"@) == Some(m.channel@)
    &&& spec_obj_get(f, "balances"@) matches Some(Json::Obj(f2)) && balances_map_ok(
        f2,
        m.balances@,
    )
}

#[verifier::loop_isolation(false)]
fn decode_balances_msg(f: &Vec<(String, JsonValue)>) -> (r: Option<WsBalancesMessage>)
    ensures
        match r {
            Some(m) => balances_msg_shape(json_fields_view(f@)) && balances_msg_ok(
                json_fields_view(f@),
                m,
            ),
            None => !balances_msg_shape(json_fields_view(f@)),
        },
{
    let channel = match get_str(f, "channel") {
        Some(x) => x,
        None => {
            return None;
        },
    };
    let inner = match obj_get(f, "balances") {
        Some(JsonValue::Obj(f2)) => f2,
        _ => {
            return None;
        },
    };
    let ghost f2v = json_fields_view(inner@);
    proof {
        lemma_json_fields_view(inner@);
    }
    let mut balances: Vec<(String, String)> = Vec::new();
    let n = inner.len();
    for i in 0..n
        invariant
            n == inner@.len(),
            f2v == json_fields_view(inner@),
            f2v.len() == n,
            forall|q: int| 0 <= q < n ==> #[trigger] f2v[q] == (inner@[q].0@, inner@[q].1@),
            balances@.len() == i,
            forall|q: int|
                0 <= q < i ==> (#[trigger] balances@[q]).0@ == f2v[q].0 && Json::Str(
                    balances@[q].1@,
                ) == f2v[q].1,
    {
        match &inner[i].1 {
            JsonValue::Str(s) => {
                balances.push((inner[i].0.clone(), s.clone()));
            },
            _ => {
                assert(!(f2v[i as int].1 is Str));
                assert(!balances_map_shape(f2v));
                return None;
            },
        }
    }
    proof {
        assert forall|q: int| 0 <= q < f2v.len() implies (#[trigger] f2v[q]).1 is Str by {
            assert(Json::Str(balances@[q].1@) == f2v[q].1);
        }
    }
    Some(WsBalancesMessage { channel, balances })
}

/// The frame carries this acknowledgment tag with fitting fields.
pub open spec fn system_status_shape(f: Seq<(Seq<char>, Json)>) -> bool {
    &&& s_str(f, "event"@) == Some("systemStatus"@)
    &&& s_str(f, "status"@) is Some
    &&& s_str(f, "version"@) is Some
}

/// The decoded acknowledgment carries exactly the frame's fields.
pub open spec fn system_status_ok(f: Seq<(Seq<char>, Json)>, m_status: Seq<char>, m_version: Seq<char>) -> bool {
    &&& s_str(f, "status"@) == Some(m_status)
    &&& s_str(f, "version"@) == Some(m_version)
}
fn decode_system_status(f: &Vec<(String, JsonValue)>) -> (r: Option<WsAdminResponse>)
    ensures
        match r {
            Some(m) => system_status_shape(json_fields_view(f@)) && (m matches WsAdminResponse::SystemStatus { status, version } && system_status_ok(
                json_fields_view(f@),
                status@, version@,
            )),
            None => !system_status_shape(json_fields_view(f@)),
        },
{
    let ev = match get_str(f, "event") {
        Some(x) => x,
        None => {
            return None;
        },
    };
    if !str_eq(&ev, "systemStatus") {
        return None;
    }
    let status = match get_str(f, "status") {
        Some(x) => x,
        None => {
            return None;
        },
    };
    let version = match get_str(f, "version") {
        Some(x) => x,
        None => {
            return None;
        },
    };
    Some(WsAdminResponse::SystemStatus { status, version })
}

/// The frame carries this acknowledgment tag with fitting fields.
pub open spec fn subscription_status_shape(f: Seq<(Seq<char>, Json)>) -> bool {
    &&& s_str(f, "event"@) == Some("subscriptionStatus"@)
    &&& s_str(f, "channel"@) is Some
    &&& s_str(f, "status"@) is Some
    &&& s_opt_u64(f, "req_id"@) is Some
    &&& s_opt_str(f, "error_message"@) is Some
}

/// The decoded acknowledgment carries exactly the frame's fields.
pub open spec fn subscription_status_ok(f: Seq<(Seq<char>, Json)>, m_channel: Seq<char>, m_status: Seq<char>, m_req_id: Option<u64>, m_error_message: Option<String>) -> bool {
    &&& s_str(f, "channel"@) == Some(m_channel)
    &&& s_str(f, "status"@) == Some(m_status)
    &&& s_opt_u64(f, "req_id"@) == Some(m_req_id)
    &&& s_opt_str(f, "error_message"@) == Some(opt_str_view(&m_error_message))
}
fn decode_subscription_status(f: &Vec<(String, JsonValue)>) -> (r: Option<WsAdminResponse>)
    ensures
        match r {
            Some(m) => subscription_status_shape(json_fields_view(f@)) && (m matches WsAdminResponse::SubscriptionStatus { channel, status, req_id, error_message } && subscription_status_ok(
                json_fields_view(f@),
                channel@, status@, req_id, error_message,
            )),
            None => !subscription_status_shape(json_fields_view(f@)),
        },
{
    let ev = match get_str(f, "event") {
        Some(x) => x,
        None => {
            return None;
        },
    };
    if !str_eq(&ev, "subscriptionStatus") {
        return None;
    }
    let channel = match get_str(f, "channel") {
        Some(x) => x,
        None => {
            return None;
        },
    };
    let status = match get_str(f, "status") {
        Some(x) => x,
        None => {
            return None;
        },
    };
    let req_id = match get_opt_u64(f, "req_id") {
        Some(x) => x,
        None => {
            return None;
        },
    };
    let error_message = match get_opt_str(f, "error_message") {
        Some(x) => x,
        None => {
            return None;
        },
    };
    Some(WsAdminResponse::SubscriptionStatus { channel, status, req_id, error_message })
}

/// The frame carries this acknowledgment tag with fitting fields.
pub open spec fn ping_status_shape(f: Seq<(Seq<char>, Json)>) -> bool {
    &&& s_str(f, "event"@) == Some("pingStatus"@)
    &&& s_opt_u64(f, "req_id"@) is Some
}

/// The decoded acknowledgment carries exactly the frame's fields.
pub open spec fn ping_status_ok(f: Seq<(Seq<char>, Json)>, m_req_id: Option<u64>) -> bool {
    &&& s_opt_u64(f, "req_id"@) == Some(m_req_id)
}
fn decode_ping_status(f: &Vec<(String, JsonValue)>) -> (r: Option<WsAdminResponse>)
    ensures
        match r {
            Some(m) => ping_status_shape(json_fields_view(f@)) && (m matches WsAdminResponse::PingStatus { req_id } && ping_status_ok(
                json_fields_view(f@),
                req_id,
            )),
            None => !ping_status_shape(json_fields_view(f@)),
        },
{
    let ev = match get_str(f, "event") {
        Some(x) => x,
        None => {
            return None;
        },
    };
    if !str_eq(&ev, "pingStatus") {
        return None;
    }
    let req_id = match get_opt_u64(f, "req_id") {
        Some(x) => x,
        None => {
            return None;
        },
    };
    Some(WsAdminResponse::PingStatus { req_id })
}

/// The frame carries this acknowledgment tag with fitting fields.
pub open spec fn heartbeat_msg_shape(f: Seq<(Seq<char>, Json)>) -> bool {
    &&& s_str(f, "event"@) == Some("heartbeat"@)
}

fn decode_heartbeat_msg(f: &Vec<(String, JsonValue)>) -> (r: Option<WsAdminResponse>)
    ensures
        match r {
            Some(m) => heartbeat_msg_shape(json_fields_view(f@)) && (m matches WsAdminResponse::Heartbeat {  }),
            None => !heartbeat_msg_shape(json_fields_view(f@)),
        },
{
    let ev = match get_str(f, "event") {
        Some(x) => x,
        None => {
            return None;
        },
    };
    if !str_eq(&ev, "heartbeat") {
        return None;
    }

    Some(WsAdminResponse::Heartbeat {  })
}

/// The frame carries this acknowledgment tag with fitting fields.
pub open spec fn add_order_status_shape(f: Seq<(Seq<char>, Json)>) -> bool {
    &&& s_str(f, "event"@) == Some("addOrderStatus"@)
    &&& s_str(f, "status"@) is Some
    &&& s_opt_str(f, "txid"@) is Some
    &&& s_opt_u64(f, "req_id"@) is Some
    &&& s_opt_str(f, "error_message"@) is Some
}

/// The decoded acknowledgment carries exactly the frame's fields.
pub open spec fn add_order_status_ok(f: Seq<(Seq<char>, Json)>, m_status: Seq<char>, m_txid: Option<String>, m_req_id: Option<u64>, m_error_message: Option<String>) -> bool {
    &&& s_str(f, "status"@) == Some(m_status)
    &&& s_opt_str(f, "txid"@) == Some(opt_str_view(&m_txid))
    &&& s_opt_u64(f, "req_id"@) == Some(m_req_id)
    &&& s_opt_str(f, "error_message"@) == Some(opt_str_view(&m_error_message))
}
fn decode_add_order_status(f: &Vec<(String, JsonValue)>) -> (r: Option<WsUserTradingResponse>)
    ensures
        match r {
            Some(m) => add_order_status_shape(json_fields_view(f@)) && (m matches WsUserTradingResponse::AddOrderStatus { status, txid, req_id, error_message } && add_order_status_ok(
                json_fields_view(f@),
                status@, txid, req_id, error_message,
            )),
            None => !add_order_status_shape(json_fields_view(f@)),
        },
{
    let ev = match get_str(f, "event") {
        Some(x) => x,
        None => {
            return None;
        },
    };
    if !str_eq(&ev, "addOrderStatus") {
        return None;
    }
    let status = match get_str(f, "status") {
        Some(x) => x,
        None => {
            return None;
        },
    };
    let txid = match get_opt_str(f, "txid") {
        Some(x) => x,
        None => {
            return None;
        },
    };
    let req_id = match get_opt_u64(f, "req_id") {
        Some(x) => x,
        None => {
            return None;
        },
    };
    let error_message = match get_opt_str(f, "error_message") {
        Some(x) => x,
        None => {
            return None;
        },
    };
    Some(WsUserTradingResponse::AddOrderStatus { status, txid, req_id, error_message })
}

/// The frame carries this acknowledgment tag with fitting fields.
pub open spec fn amend_order_status_shape(f: Seq<(Seq<char>, Json)>) -> bool {
    &&& s_str(f, "event"@) == Some("amendOrderStatus"@)
    &&& s_str(f, "status"@) is Some
    &&& s_opt_str(f, "txid"@) is Some
    &&& s_opt_u64(f, "req_id"@) is Some
    &&& s_opt_str(f, "error_message"@) is Some
}

/// The decoded acknowledgment carries exactly the frame's fields.
pub open spec fn amend_order_status_ok(f: Seq<(Seq<char>, Json)>, m_status: Seq<char>, m_txid: Option<String>, m_req_id: Option<u64>, m_error_message: Option<String>) -> bool {
    &&& s_str(f, "status"@) == Some(m_status)
    &&& s_opt_str(f, "txid"@) == Some(opt_str_view(&m_txid))
    &&& s_opt_u64(f, "req_id"@) == Some(m_req_id)
    &&& s_opt_str(f, "error_message"@) == Some(opt_str_view(&m_error_message))
}
fn decode_amend_order_status(f: &Vec<(String, JsonValue)>) -> (r: Option<WsUserTradingResponse>)
    ensures
        match r {
            Some(m) => amend_order_status_shape(json_fields_view(f@)) && (m matches WsUserTradingResponse::AmendOrderStatus { status, txid, req_id, error_message } && amend_order_status_ok(
                json_fields_view(f@),
                status@, txid, req_id, error_message,
            )),
            None => !amend_order_status_shape(json_fields_view(f@)),
        },
{
    let ev = match get_str(f, "event") {
        Some(x) => x,
        None => {
            return None;
        },
    };
    if !str_eq(&ev, "amendOrderStatus") {
        return None;
    }
    let status = match get_str(f, "status") {
        Some(x) => x,
        None => {
            return None;
        },
    };
    let txid = match get_opt_str(f, "txid") {
        Some(x) => x,
        None => {
            return None;
        },
    };
    let req_id = match get_opt_u64(f, "req_id") {
        Some(x) => x,
        None => {
            return None;
        },
    };
    let error_message = match get_opt_str(f, "error_message") {
        Some(x) => x,
        None => {
            return None;
        },
    };
    Some(WsUserTradingResponse::AmendOrderStatus { status, txid, req_id, error_message })
}

/// The frame carries this acknowledgment tag with fitting fields.
pub open spec fn edit_order_status_shape(f: Seq<(Seq<char>, Json)>) -> bool {
    &&& s_str(f, "event"@) == Some("editOrderStatus"@)
    &&& s_str(f, "status"@) is Some
    &&& s_opt_str(f, "txid"@) is Some
    &&& s_opt_u64(f, "req_id"@) is Some
    &&& s_opt_str(f, "error_message"@) is Some
}

/// The decoded acknowledgment carries exactly the frame's fields.
pub open spec fn edit_order_status_ok(f: Seq<(Seq<char>, Json)>, m_status: Seq<char>, m_txid: Option<String>, m_req_id: Option<u64>, m_error_message: Option<String>) -> bool {
    &&& s_str(f, "status"@) == Some(m_status)
    &&& s_opt_str(f, "txid"@) == Some(opt_str_view(&m_txid))
    &&& s_opt_u64(f, "req_id"@) == Some(m_req_id)
    &&& s_opt_str(f, "error_message"@) == Some(opt_str_view(&m_error_message))
}
fn decode_edit_order_status(f: &Vec<(String, JsonValue)>) -> (r: Option<WsUserTradingResponse>)
    ensures
        match r {
            Some(m) => edit_order_status_shape(json_fields_view(f@)) && (m matches WsUserTradingResponse::EditOrderStatus { status, txid, req_id, error_message } && edit_order_status_ok(
                json_fields_view(f@),
                status@, txid, req_id, error_message,
            )),
            None => !edit_order_status_shape(json_fields_view(f@)),
        },
{
    let ev = match get_str(f, "event") {
        Some(x) => x,
        None => {
            return None;
        },
    };
    if !str_eq(&ev, "editOrderStatus") {
        return None;
    }
    let status = match get_str(f, "status") {
        Some(x) => x,
        None => {
            return None;
        },
    };
    let txid = match get_opt_str(f, "txid") {
        Some(x) => x,
        None => {
            return None;
        },
    };
    let req_id = match get_opt_u64(f, "req_id") {
        Some(x) => x,
        None => {
            return None;
        },
    };
    let error_message = match get_opt_str(f, "error_message") {
        Some(x) => x,
        None => {
            return None;
        },
    };
    Some(WsUserTradingResponse::EditOrderStatus { status, txid, req_id, error_message })
}

/// The frame carries this acknowledgment tag with fitting fields.
pub open spec fn cancel_order_status_shape(f: Seq<(Seq<char>, Json)>) -> bool {
    &&& s_str(f, "event"@) == Some("cancelOrderStatus"@)
    &&& s_str(f, "status"@) is Some
    &&& s_opt_str(f, "txid"@) is Some
    &&& s_opt_u64(f, "req_id"@) is Some
    &&& s_opt_str(f, "error_message"@) is Some
}

/// The decoded acknowledgment carries exactly the frame's fields.
pub open spec fn cancel_order_status_ok(f: Seq<(Seq<char>, Json)>, m_status: Seq<char>, m_txid: Option<String>, m_req_id: Option<u64>, m_error_message: Option<String>) -> bool {
    &&& s_str(f, "status"@) == Some(m_status)
    &&& s_opt_str(f, "txid"@) == Some(opt_str_view(&m_txid))
    &&& s_opt_u64(f, "req_id"@) == Some(m_req_id)
    &&& s_opt_str(f, "error_message"@) == Some(opt_str_view(&m_error_message))
}
fn decode_cancel_order_status(f: &Vec<(String, JsonValue)>) -> (r: Option<WsUserTradingResponse>)
    ensures
        match r {
            Some(m) => cancel_order_status_shape(json_fields_view(f@)) && (m matches WsUserTradingResponse::CancelOrderStatus { status, txid, req_id, error_message } && cancel_order_status_ok(
                json_fields_view(f@),
                status@, txid, req_id, error_message,
            )),
            None => !cancel_order_status_shape(json_fields_view(f@)),
        },
{
    let ev = match get_str(f, "event") {
        Some(x) => x,
        None => {
            return None;
        },
    };
    if !str_eq(&ev, "cancelOrderStatus") {
        return None;
    }
    let status = match get_str(f, "status") {
        Some(x) => x,
        None => {
            return None;
        },
    };
    let txid = match get_opt_str(f, "txid") {
        Some(x) => x,
        None => {
            return None;
        },
    };
    let req_id = match get_opt_u64(f, "req_id") {
        Some(x) => x,
        None => {
            return None;
        },
    };
    let error_message = match get_opt_str(f, "error_message") {
        Some(x) => x,
        None => {
            return None;
        },
    };
    Some(WsUserTradingResponse::CancelOrderStatus { status, txid, req_id, error_message })
}

/// The frame carries this acknowledgment tag with fitting fields.
pub open spec fn cancel_all_status_shape(f: Seq<(Seq<char>, Json)>) -> bool {
    &&& s_str(f, "event"@) == Some("cancelAllStatus"@)
    &&& s_str(f, "status"@) is Some
    &&& s_opt_u64(f, "count"@) is Some
    &&& s_opt_u64(f, "req_id"@) is Some
    &&& s_opt_str(f, "error_message"@) is Some
}

/// The decoded acknowledgment carries exactly the frame's fields.
pub open spec fn cancel_all_status_ok(f: Seq<(Seq<char>, Json)>, m_status: Seq<char>, m_count: Option<u64>, m_req_id: Option<u64>, m_error_message: Option<String>) -> bool {
    &&& s_str(f, "status"@) == Some(m_status)
    &&& s_opt_u64(f, "count"@) == Some(m_count)
    &&& s_opt_u64(f, "req_id"@) == Some(m_req_id)
    &&& s_opt_str(f, "error_message"@) == Some(opt_str_view(&m_error_message))
}
fn decode_cancel_all_status(f: &Vec<(String, JsonValue)>) -> (r: Option<WsUserTradingResponse>)
    ensures
        match r {
            Some(m) => cancel_all_status_shape(json_fields_view(f@)) && (m matches WsUserTradingResponse::CancelAllStatus { status, count, req_id, error_message } && cancel_all_status_ok(
                json_fields_view(f@),
                status@, count, req_id, error_message,
            )),
            None => !cancel_all_status_shape(json_fields_view(f@)),
        },
{
    let ev = match get_str(f, "event") {
        Some(x) => x,
        None => {
            return None;
        },
    };
    if !str_eq(&ev, "cancelAllStatus") {
        return None;
    }
    let status = match get_str(f, "status") {
        Some(x) => x,
        None => {
            return None;
        },
    };
    let count = match get_opt_u64(f, "count") {
        Some(x) => x,
        None => {
            return None;
        },
    };
    let req_id = match get_opt_u64(f, "req_id") {
        Some(x) => x,
        None => {
            return None;
        },
    };
    let error_message = match get_opt_str(f, "error_message") {
        Some(x) => x,
        None => {
            return None;
        },
    };
    Some(WsUserTradingResponse::CancelAllStatus { status, count, req_id, error_message })
}

/// The frame carries this acknowledgment tag with fitting fields.
pub open spec fn cancel_on_disconnect_status_shape(f: Seq<(Seq<char>, Json)>) -> bool {
    &&& s_str(f, "event"@) == Some("cancelOnDisconnectStatus"@)
    &&& s_str(f, "status"@) is Some
    &&& s_opt_u64(f, "req_id"@) is Some
    &&& s_opt_str(f, "error_message"@) is Some
}

/// The decoded acknowledgment carries exactly the frame's fields.
pub open spec fn cancel_on_disconnect_status_ok(f: Seq<(Seq<char>, Json)>, m_status: Seq<char>, m_req_id: Option<u64>, m_error_message: Option<String>) -> bool {
    &&& s_str(f, "status"@) == Some(m_status)
    &&& s_opt_u64(f, "req_id"@) == Some(m_req_id)
    &&& s_opt_str(f, "error_message"@) == Some(opt_str_view(&m_error_message))
}
fn decode_cancel_on_disconnect_status(f: &Vec<(String, JsonValue)>) -> (r: Option<WsUserTradingResponse>)
    ensures
        match r {
            Some(m) => cancel_on_disconnect_status_shape(json_fields_view(f@)) && (m matches WsUserTradingResponse::CancelOnDisconnectStatus { status, req_id, error_message } && cancel_on_disconnect_status_ok(
                json_fields_view(f@),
                status@, req_id, error_message,
            )),
            None => !cancel_on_disconnect_status_shape(json_fields_view(f@)),
        },
{
    let ev = match get_str(f, "event") {
        Some(x) => x,
        None => {
            return None;
        },
    };
    if !str_eq(&ev, "cancelOnDisconnectStatus") {
        return None;
    }
    let status = match get_str(f, "status") {
        Some(x) => x,
        None => {
            return None;
        },
    };
    let req_id = match get_opt_u64(f, "req_id") {
        Some(x) => x,
        None => {
            return None;
        },
    };
    let error_message = match get_opt_str(f, "error_message") {
        Some(x) => x,
        None => {
            return None;
        },
    };
    Some(WsUserTradingResponse::CancelOnDisconnectStatus { status, req_id, error_message })
}

/// The frame carries this acknowledgment tag with fitting fields.
pub open spec fn batch_add_status_shape(f: Seq<(Seq<char>, Json)>) -> bool {
    &&& s_str(f, "event"@) == Some("batchAddStatus"@)
    &&& s_str(f, "status"@) is Some
    &&& (spec_obj_get(f, "results"@) matches None || spec_obj_get(f, "results"@) matches Some(Json::Null) || (spec_obj_get(f, "results"@) matches Some(Json::Arr(it)) && add_result_list_shape(it)))
    &&& s_opt_u64(f, "req_id"@) is Some
    &&& s_opt_str(f, "error_message"@) is Some
}

/// The decoded acknowledgment carries exactly the frame's fields.
pub open spec fn batch_add_status_ok(f: Seq<(Seq<char>, Json)>, m_status: Seq<char>, m_results: Option<Vec<BatchAddResult>>, m_req_id: Option<u64>, m_error_message: Option<String>) -> bool {
    &&& s_str(f, "status"@) == Some(m_status)
    &&& (match spec_obj_get(f, "results"@) { None => m_results is None, Some(Json::Null) => m_results is None, Some(Json::Arr(it)) => m_results matches Some(v) && add_result_list_ok(it, v@), _ => false })
    &&& s_opt_u64(f, "req_id"@) == Some(m_req_id)
    &&& s_opt_str(f, "error_message"@) == Some(opt_str_view(&m_error_message))
}
fn decode_batch_add_status(f: &Vec<(String, JsonValue)>) -> (r: Option<WsUserTradingResponse>)
    ensures
        match r {
            Some(m) => batch_add_status_shape(json_fields_view(f@)) && (m matches WsUserTradingResponse::BatchAddStatus { status, results, req_id, error_message } && batch_add_status_ok(
                json_fields_view(f@),
                status@, results, req_id, error_message,
            )),
            None => !batch_add_status_shape(json_fields_view(f@)),
        },
{
    let ev = match get_str(f, "event") {
        Some(x) => x,
        None => {
            return None;
        },
    };
    if !str_eq(&ev, "batchAddStatus") {
        return None;
    }
    let status = match get_str(f, "status") {
        Some(x) => x,
        None => {
            return None;
        },
    };
    let results: Option<Vec<BatchAddResult>> = match obj_get(f, "results") {
        None => None,
        Some(JsonValue::Null) => None,
        Some(JsonValue::Arr(items)) => match decode_add_result_list(items) {
            Some(v) => Some(v),
            None => {
                return None;
            },
        },
        _ => {
            return None;
        },
    };
    let req_id = match get_opt_u64(f, "req_id") {
        Some(x) => x,
        None => {
            return None;
        },
    };
    let error_message = match get_opt_str(f, "error_message") {
        Some(x) => x,
        None => {
            return None;
        },
    };
    Some(WsUserTradingResponse::BatchAddStatus { status, results, req_id, error_message })
}

/// The frame carries this acknowledgment tag with fitting fields.
pub open spec fn batch_cancel_status_shape(f: Seq<(Seq<char>, Json)>) -> bool {
    &&& s_str(f, "event"@) == Some("batchCancelStatus"@)
    &&& s_str(f, "status"@) is Some
    &&& (spec_obj_get(f, "results"@) matches None || spec_obj_get(f, "results"@) matches Some(Json::Null) || (spec_obj_get(f, "results"@) matches Some(Json::Arr(it)) && cancel_result_list_shape(it)))
    &&& s_opt_u64(f, "req_id"@) is Some
    &&& s_opt_str(f, "error_message"@) is Some
}

/// The decoded acknowledgment carries exactly the frame's fields.
pub open spec fn batch_cancel_status_ok(f: Seq<(Seq<char>, Json)>, m_status: Seq<char>, m_results: Option<Vec<BatchCancelResult>>, m_req_id: Option<u64>, m_error_message: Option<String>) -> bool {
    &&& s_str(f, "status"@) == Some(m_status)
    &&& (match spec_obj_get(f, "results"@) { None => m_results is None, Some(Json::Null) => m_results is None, Some(Json::Arr(it)) => m_results matches Some(v) && cancel_result_list_ok(it, v@), _ => false })
    &&& s_opt_u64(f, "req_id"@) == Some(m_req_id)
    &&& s_opt_str(f, "error_message"@) == Some(opt_str_view(&m_error_message))
}
fn decode_batch_cancel_status(f: &Vec<(String, JsonValue)>) -> (r: Option<WsUserTradingResponse>)
    ensures
        match r {
            Some(m) => batch_cancel_status_shape(json_fields_view(f@)) && (m matches WsUserTradingResponse::BatchCancelStatus { status, results, req_id, error_message } && batch_cancel_status_ok(
                json_fields_view(f@),
                status@, results, req_id, error_message,
            )),
            None => !batch_cancel_status_shape(json_fields_view(f@)),
        },
{
    let ev = match get_str(f, "event") {
        Some(x) => x,
        None => {
            return None;
        },
    };
    if !str_eq(&ev, "batchCancelStatus") {
        return None;
    }
    let status = match get_str(f, "status") {
        Some(x) => x,
        None => {
            return None;
        },
    };
    let results: Option<Vec<BatchCancelResult>> = match obj_get(f, "results") {
        None => None,
        Some(JsonValue::Null) => None,
        Some(JsonValue::Arr(items)) => match decode_cancel_result_list(items) {
            Some(v) => Some(v),
            None => {
                return None;
            },
        },
        _ => {
            return None;
        },
    };
    let req_id = match get_opt_u64(f, "req_id") {
        Some(x) => x,
        None => {
            return None;
        },
    };
    let error_message = match get_opt_str(f, "error_message") {
        Some(x) => x,
        None => {
            return None;
        },
    };
    Some(WsUserTradingResponse::BatchCancelStatus { status, results, req_id, error_message })
}

// ─── The ordered classifier ───

/// What classification yields for one decoded frame: the first shape in the
/// fixed order — administrative tags, market data, user data, trading
/// acknowledgment tags — that the frame fits, with every field carried over;
/// a frame fitting none is kept raw, so nothing is lost.
pub open spec fn spec_classified(j: Json, m: &WsIncomingMessage) -> bool {
    match j {
        Json::Obj(f) => {
            if system_status_shape(f) {
                m matches WsIncomingMessage::Admin(WsAdminResponse::SystemStatus { status, version })
                    && system_status_ok(f, status@, version@)
            } else if subscription_status_shape(f) {
                m matches WsIncomingMessage::Admin(WsAdminResponse::SubscriptionStatus {
                    channel,
                    status,
                    req_id,
                    error_message,
                }) && subscription_status_ok(f, channel@, status@, *req_id, *error_message)
            } else if ping_status_shape(f) {
                m matches WsIncomingMessage::Admin(WsAdminResponse::PingStatus { req_id })
                    && ping_status_ok(f, *req_id)
            } else if heartbeat_msg_shape(f) {
                m matches WsIncomingMessage::Admin(WsAdminResponse::Heartbeat {  })
            } else if ticker_msg_shape(f) {
                m matches WsIncomingMessage::TickerMsg(t) && ticker_msg_ok(f, *t)
            } else if book_msg_shape(f) {
                m matches WsIncomingMessage::BookMsg(t) && book_msg_ok(f, *t)
            } else if candles_msg_shape(f) {
                m matches WsIncomingMessage::CandlesMsg(t) && candles_msg_ok(f, *t)
            } else if trades_msg_shape(f) {
                m matches WsIncomingMessage::TradesMsg(t) && trades_msg_ok(f, *t)
            } else if instruments_msg_shape(f) {
                m matches WsIncomingMessage::InstrumentsMsg(t) && instruments_msg_ok(f, *t)
            } else if balances_msg_shape(f) {
                m matches WsIncomingMessage::BalancesMsg(t) && balances_msg_ok(f, *t)
            } else if executions_msg_shape(f) {
                m matches WsIncomingMessage::ExecutionsMsg(t) && executions_msg_ok(f, *t)
            } else if add_order_status_shape(f) {
                m matches WsIncomingMessage::Trading(WsUserTradingResponse::AddOrderStatus {
                    status,
                    txid,
                    req_id,
                    error_message,
                }) && add_order_status_ok(f, status@, *txid, *req_id, *error_message)
            } else if amend_order_status_shape(f) {
                m matches WsIncomingMessage::Trading(WsUserTradingResponse::AmendOrderStatus {
                    status,
                    txid,
                    req_id,
                    error_message,
                }) && amend_order_status_ok(f, status@, *txid, *req_id, *error_message)
            } else if edit_order_status_shape(f) {
                m matches WsIncomingMessage::Trading(WsUserTradingResponse::EditOrderStatus {
                    status,
                    txid,
                    req_id,
                    error_message,
                }) && edit_order_status_ok(f, status@, *txid, *req_id, *error_message)
            } else if cancel_order_status_shape(f) {
                m matches WsIncomingMessage::Trading(WsUserTradingResponse::CancelOrderStatus {
                    status,
                    txid,
                    req_id,
                    error_message,
                }) && cancel_order_status_ok(f, status@, *txid, *req_id, *error_message)
            } else if cancel_all_status_shape(f) {
                m matches WsIncomingMessage::Trading(WsUserTradingResponse::CancelAllStatus {
                    status,
                    count,
                    req_id,
                    error_message,
                }) && cancel_all_status_ok(f, status@, *count, *req_id, *error_message)
            } else if cancel_on_disconnect_status_shape(f) {
                m matches WsIncomingMessage::Trading(
                    WsUserTradingResponse::CancelOnDisconnectStatus {
                        status,
                        req_id,
                        error_message,
                    },
                ) && cancel_on_disconnect_status_ok(f, status@, *req_id, *error_message)
            } else if batch_add_status_shape(f) {
                m matches WsIncomingMessage::Trading(WsUserTradingResponse::BatchAddStatus {
                    status,
                    results,
                    req_id,
                    error_message,
                }) && batch_add_status_ok(f, status@, *results, *req_id, *error_message)
            } else if batch_cancel_status_shape(f) {
                m matches WsIncomingMessage::Trading(WsUserTradingResponse::BatchCancelStatus {
                    status,
                    results,
                    req_id,
                    error_message,
                }) && batch_cancel_status_ok(f, status@, *results, *req_id, *error_message)
            } else {
                m matches WsIncomingMessage::CatchAll(raw) && raw@ == j
            }
        },
        _ => m matches WsIncomingMessage::CatchAll(raw) && raw@ == j,
    }
}

/// Classify one decoded frame into its typed message: the attempts run in
/// the fixed order stated by `spec_classified`, and an unmatched frame is
/// returned raw.
pub fn classify_message(v: JsonValue) -> (m: WsIncomingMessage)
    ensures
        spec_classified(v@, &m),
{
    match &v {
        JsonValue::Obj(fields) => {
            if let Some(a) = decode_system_status(fields) {
                return WsIncomingMessage::Admin(a);
            }
            if let Some(a) = decode_subscription_status(fields) {
                return WsIncomingMessage::Admin(a);
            }
            if let Some(a) = decode_ping_status(fields) {
                return WsIncomingMessage::Admin(a);
            }
            if let Some(a) = decode_heartbeat_msg(fields) {
                return WsIncomingMessage::Admin(a);
            }
            if let Some(t) = decode_ticker_msg(fields) {
                return WsIncomingMessage::TickerMsg(t);
            }
            if let Some(t) = decode_book_msg(fields) {
                return WsIncomingMessage::BookMsg(t);
            }
            if let Some(t) = decode_candles_msg(fields) {
                return WsIncomingMessage::CandlesMsg(t);
            }
            if let Some(t) = decode_trades_msg(fields) {
                return WsIncomingMessage::TradesMsg(t);
            }
            if let Some(t) = decode_instruments_msg(fields) {
                return WsIncomingMessage::InstrumentsMsg(t);
            }
            if let Some(t) = decode_balances_msg(fields) {
                return WsIncomingMessage::BalancesMsg(t);
            }
            if let Some(t) = decode_executions_msg(fields) {
                return WsIncomingMessage::ExecutionsMsg(t);
            }
            if let Some(t) = decode_add_order_status(fields) {
                return WsIncomingMessage::Trading(t);
            }
            if let Some(t) = decode_amend_order_status(fields) {
                return WsIncomingMessage::Trading(t);
            }
            if let Some(t) = decode_edit_order_status(fields) {
                return WsIncomingMessage::Trading(t);
            }
            if let Some(t) = decode_cancel_order_status(fields) {
                return WsIncomingMessage::Trading(t);
            }
            if let Some(t) = decode_cancel_all_status(fields) {
                return WsIncomingMessage::Trading(t);
            }
            if let Some(t) = decode_cancel_on_disconnect_status(fields) {
                return WsIncomingMessage::Trading(t);
            }
            if let Some(t) = decode_batch_add_status(fields) {
                return WsIncomingMessage::Trading(t);
            }
            if let Some(t) = decode_batch_cancel_status(fields) {
                return WsIncomingMessage::Trading(t);
            }
        },
        _ => {},
    }
    WsIncomingMessage::CatchAll(v)
}

// ─── The read loop's transition function ───

/// The streaming session's lifecycle: connecting, open, closed (terminal).
#[derive(PartialEq, Eq, Structural, Clone, Copy, Debug)]
pub enum SessionState {
    Connecting,
    Open,
    Closed,
}

/// One transport-level observation of the read loop.
pub enum ReadEvent {
    TextFrame(String),
    BinaryFrame,
    PingFrame,
    PongFrame,
    CloseFrame,
    TransportError(String),
}

/// What the session does with one observation.
pub enum ReadAction {
    /// A classified message for the consumer's callback surface.
    Dispatch(WsIncomingMessage),
    /// A textual frame that did not parse as JSON, kept verbatim.
    ReportUnparsed(String),
    /// A non-textual frame: reported, never decoded as a domain message.
    ReportControl,
    /// The peer closed; the loop ends normally.
    Stop,
    /// A read failure, reported once; the loop ends.
    Fail(String),
}

/// One step of the read loop: a textual frame is parsed and classified, a
/// non-textual frame is reported but not decoded, and a close frame or read
/// error closes the session. Frames are handled strictly in arrival order;
/// this step never touches the write path, so a read failure cannot disturb
/// in-flight sends.
pub fn on_read_event(state: SessionState, event: ReadEvent) -> (r: (SessionState, ReadAction))
    requires
        state == SessionState::Open,
    ensures
        match event {
            ReadEvent::TextFrame(t) => r.0 == SessionState::Open && match spec_parse_json(t@) {
                Some(doc) => r.1 matches ReadAction::Dispatch(m) && spec_classified(doc, &m),
                None => r.1 matches ReadAction::ReportUnparsed(raw) && raw@ == t@,
            },
            ReadEvent::BinaryFrame => r.0 == SessionState::Open && r.1 matches
                ReadAction::ReportControl,
            ReadEvent::PingFrame => r.0 == SessionState::Open && r.1 matches
                ReadAction::ReportControl,
            ReadEvent::PongFrame => r.0 == SessionState::Open && r.1 matches
                ReadAction::ReportControl,
            ReadEvent::CloseFrame => r.0 == SessionState::Closed && r.1 matches ReadAction::Stop,
            ReadEvent::TransportError(e) => r.0 == SessionState::Closed && (r.1 matches
                ReadAction::Fail(msg) && msg@ == e@),
        },
{
    match event {
        ReadEvent::TextFrame(t) => match parse_json(t.as_str()) {
            Some(doc) => (SessionState::Open, ReadAction::Dispatch(classify_message(doc))),
            None => (SessionState::Open, ReadAction::ReportUnparsed(t)),
        },
        ReadEvent::BinaryFrame => (SessionState::Open, ReadAction::ReportControl),
        ReadEvent::PingFrame => (SessionState::Open, ReadAction::ReportControl),
        ReadEvent::PongFrame => (SessionState::Open, ReadAction::ReportControl),
        ReadEvent::CloseFrame => (SessionState::Closed, ReadAction::Stop),
        ReadEvent::TransportError(e) => (SessionState::Closed, ReadAction::Fail(e)),
    }
}

} // verus!
