//! Typed frames of the streaming interface. Outbound commands build their
//! JSON form through verified field assembly: each builder's contract pins
//! the exact field list, in order, with optional fields present exactly when
//! set. Inbound shapes are declared here; the classifier decodes them.

use vstd::prelude::*;

use crate::json::{json_fields_view, json_seq_view, lemma_json_seq_view, opt_bool_seg, opt_int_seg,
    opt_str_seg, push_bool_field, push_int_field, push_opt_bool_field, push_opt_str_field,
    push_json_field, push_lit_field, push_str_field, Json, JsonValue};

verus! {

/// An optional string, seen as an optional character sequence.
pub open spec fn opt_str_view(o: &Option<String>) -> Option<Seq<char>> {
    match o {
        Some(s) => Some(s@),
        None => None,
    }
}

pub open spec fn opt_bool_view(o: &Option<bool>) -> Option<bool> {
    match o {
        Some(b) => Some(*b),
        None => None,
    }
}

/// An optional request identifier, as an optional integer.
pub open spec fn opt_u64_int(o: &Option<u64>) -> Option<int> {
    match o {
        Some(n) => Some(*n as int),
        None => None,
    }
}

/// The identifier fits the wire's signed 64-bit number form.
pub open spec fn req_id_ok(r: Option<u64>) -> bool {
    match r {
        Some(n) => n <= i64::MAX,
        None => true,
    }
}

/// Append the optional request identifier.
pub fn push_req_id_field(out: &mut Vec<(String, JsonValue)>, req_id: &Option<u64>)
    requires
        req_id_ok(*req_id),
    ensures
        json_fields_view(final(out)@) == json_fields_view(old(out)@) + opt_int_seg(
            "req_id"@,
            opt_u64_int(req_id),
        ),
{
    match req_id {
        Some(n) => {
            push_int_field(out, "req_id", *n as i64);
        },
        None => {
            assert(json_fields_view(out@) =~= json_fields_view(out@) + Seq::<
                (Seq<char>, Json),
            >::empty());
        },
    }
}

/// Outbound frame: a keep-alive probe.
pub struct WsPingRequest {
    pub event: String,
    pub req_id: Option<u64>,
}

impl WsPingRequest {
    /// Fields of this frame, appended onto `base` in wire order.
    pub open spec fn spec_part1_onto(&self, base: Seq<(Seq<char>, Json)>) -> Seq<
        (Seq<char>, Json),
    > {
        base + seq![("event"@, Json::Str(self.event@))]
            + opt_int_seg("req_id"@, opt_u64_int(&self.req_id))
    }

    /// The frame's complete field list, in wire order; optional fields
    /// present exactly when set.
    pub open spec fn spec_fields(&self) -> Seq<(Seq<char>, Json)> {
        self.spec_part1_onto(Seq::<(Seq<char>, Json)>::empty())
    }

    pub open spec fn spec_json(&self) -> Json {
        Json::Obj(self.spec_fields())
    }

    fn push_part1(&self, f: &mut Vec<(String, JsonValue)>)
        requires
            req_id_ok(self.req_id),
        ensures
            json_fields_view(final(f)@) == self.spec_part1_onto(json_fields_view(old(f)@)),
    {
        push_str_field(f, "event", &self.event);
        push_req_id_field(f, &self.req_id);
    }

    /// Build the frame's JSON form.
    pub fn to_json(&self) -> (r: JsonValue)
        requires
            req_id_ok(self.req_id),
        ensures
            r@ == self.spec_json(),
    {
        let mut f: Vec<(String, JsonValue)> = Vec::new();
        proof {
            assert(json_fields_view(f@) =~= Seq::<(Seq<char>, Json)>::empty());
        }
        self.push_part1(&mut f);
        JsonValue::Obj(f)
    }
}

/// Outbound frame: a heartbeat.
pub struct WsHeartbeatRequest {
    pub event: String,
    pub req_id: Option<u64>,
}

impl WsHeartbeatRequest {
    /// Fields of this frame, appended onto `base` in wire order.
    pub open spec fn spec_part1_onto(&self, base: Seq<(Seq<char>, Json)>) -> Seq<
        (Seq<char>, Json),
    > {
        base + seq![("event"@, Json::Str(self.event@))]
            + opt_int_seg("req_id"@, opt_u64_int(&self.req_id))
    }

    /// The frame's complete field list, in wire order; optional fields
    /// present exactly when set.
    pub open spec fn spec_fields(&self) -> Seq<(Seq<char>, Json)> {
        self.spec_part1_onto(Seq::<(Seq<char>, Json)>::empty())
    }

    pub open spec fn spec_json(&self) -> Json {
        Json::Obj(self.spec_fields())
    }

    fn push_part1(&self, f: &mut Vec<(String, JsonValue)>)
        requires
            req_id_ok(self.req_id),
        ensures
            json_fields_view(final(f)@) == self.spec_part1_onto(json_fields_view(old(f)@)),
    {
        push_str_field(f, "event", &self.event);
        push_req_id_field(f, &self.req_id);
    }

    /// Build the frame's JSON form.
    pub fn to_json(&self) -> (r: JsonValue)
        requires
            req_id_ok(self.req_id),
        ensures
            r@ == self.spec_json(),
    {
        let mut f: Vec<(String, JsonValue)> = Vec::new();
        proof {
            assert(json_fields_view(f@) =~= Seq::<(Seq<char>, Json)>::empty());
        }
        self.push_part1(&mut f);
        JsonValue::Obj(f)
    }
}

/// Outbound frame: authorisation for user data and trading.
pub struct WsAuthorizeRequest {
    pub event: String,
    pub token: String,
    pub req_id: Option<u64>,
}

impl WsAuthorizeRequest {
    /// Fields of this frame, appended onto `base` in wire order.
    pub open spec fn spec_part1_onto(&self, base: Seq<(Seq<char>, Json)>) -> Seq<
        (Seq<char>, Json),
    > {
        base + seq![("event"@, Json::Str(self.event@))]
            + seq![("token"@, Json::Str(self.token@))]
            + opt_int_seg("req_id"@, opt_u64_int(&self.req_id))
    }

    /// The frame's complete field list, in wire order; optional fields
    /// present exactly when set.
    pub open spec fn spec_fields(&self) -> Seq<(Seq<char>, Json)> {
        self.spec_part1_onto(Seq::<(Seq<char>, Json)>::empty())
    }

    pub open spec fn spec_json(&self) -> Json {
        Json::Obj(self.spec_fields())
    }

    fn push_part1(&self, f: &mut Vec<(String, JsonValue)>)
        requires
            req_id_ok(self.req_id),
        ensures
            json_fields_view(final(f)@) == self.spec_part1_onto(json_fields_view(old(f)@)),
    {
        push_str_field(f, "event", &self.event);
        push_str_field(f, "token", &self.token);
        push_req_id_field(f, &self.req_id);
    }

    /// Build the frame's JSON form.
    pub fn to_json(&self) -> (r: JsonValue)
        requires
            req_id_ok(self.req_id),
        ensures
            r@ == self.spec_json(),
    {
        let mut f: Vec<(String, JsonValue)> = Vec::new();
        proof {
            assert(json_fields_view(f@) =~= Seq::<(Seq<char>, Json)>::empty());
        }
        self.push_part1(&mut f);
        JsonValue::Obj(f)
    }
}

/// Outbound frame: a new order.
pub struct WsAddOrderRequest {
    pub event: String,
    pub token: String,
    pub req_id: Option<u64>,
    pub order_type: String,
    pub symbol: String,
    pub side: String,
    pub quantity: String,
    pub price: Option<String>,
    pub stop_price: Option<String>,
    pub limit_price: Option<String>,
    pub time_in_force: Option<String>,
    pub expire_time: Option<String>,
    pub post_only: Option<bool>,
    pub reduce_only: Option<bool>,
    pub self_trade_prevention: Option<String>,
    pub trigger_signal: Option<String>,
    pub leverage: Option<String>,
    pub client_order_id: Option<String>,
    pub take_profit: Option<String>,
    pub take_profit_price: Option<String>,
    pub stop_loss: Option<String>,
    pub stop_loss_price: Option<String>,
    pub conditional_close: Option<bool>,
    pub close_price: Option<String>,
    pub take_profit_trigger: Option<String>,
    pub stop_loss_trigger: Option<String>,
    pub position_id: Option<String>,
}

impl WsAddOrderRequest {
    /// Fields of this frame, appended onto `base` in wire order.
    pub open spec fn spec_part1_onto(&self, base: Seq<(Seq<char>, Json)>) -> Seq<
        (Seq<char>, Json),
    > {
        base + seq![("event"@, Json::Str(self.event@))]
            + seq![("token"@, Json::Str(self.token@))]
            + opt_int_seg("req_id"@, opt_u64_int(&self.req_id))
            + seq![("orderType"@, Json::Str(self.order_type@))]
            + seq![("symbol"@, Json::Str(self.symbol@))]
            + seq![("side"@, Json::Str(self.side@))]
            + seq![("quantity"@, Json::Str(self.quantity@))]
    }
    /// Fields of this frame, appended onto `base` in wire order.
    pub open spec fn spec_part2_onto(&self, base: Seq<(Seq<char>, Json)>) -> Seq<
        (Seq<char>, Json),
    > {
        base + opt_str_seg("price"@, opt_str_view(&self.price))
            + opt_str_seg("stopPrice"@, opt_str_view(&self.stop_price))
            + opt_str_seg("limitPrice"@, opt_str_view(&self.limit_price))
            + opt_str_seg("timeInForce"@, opt_str_view(&self.time_in_force))
            + opt_str_seg("expireTime"@, opt_str_view(&self.expire_time))
            + opt_bool_seg("postOnly"@, opt_bool_view(&self.post_only))
            + opt_bool_seg("reduceOnly"@, opt_bool_view(&self.reduce_only))
    }
    /// Fields of this frame, appended onto `base` in wire order.
    pub open spec fn spec_part3_onto(&self, base: Seq<(Seq<char>, Json)>) -> Seq<
        (Seq<char>, Json),
    > {
        base + opt_str_seg("selfTradePrevention"@, opt_str_view(&self.self_trade_prevention))
            + opt_str_seg("triggerSignal"@, opt_str_view(&self.trigger_signal))
            + opt_str_seg("leverage"@, opt_str_view(&self.leverage))
            + opt_str_seg("clientOrderId"@, opt_str_view(&self.client_order_id))
            + opt_str_seg("takeProfit"@, opt_str_view(&self.take_profit))
            + opt_str_seg("takeProfitPrice"@, opt_str_view(&self.take_profit_price))
            + opt_str_seg("stopLoss"@, opt_str_view(&self.stop_loss))
    }
    /// Fields of this frame, appended onto `base` in wire order.
    pub open spec fn spec_part4_onto(&self, base: Seq<(Seq<char>, Json)>) -> Seq<
        (Seq<char>, Json),
    > {
        base + opt_str_seg("stopLossPrice"@, opt_str_view(&self.stop_loss_price))
            + opt_bool_seg("conditionalClose"@, opt_bool_view(&self.conditional_close))
            + opt_str_seg("closePrice"@, opt_str_view(&self.close_price))
            + opt_str_seg("takeProfitTrigger"@, opt_str_view(&self.take_profit_trigger))
            + opt_str_seg("stopLossTrigger"@, opt_str_view(&self.stop_loss_trigger))
            + opt_str_seg("positionId"@, opt_str_view(&self.position_id))
    }

    /// The frame's complete field list, in wire order; optional fields
    /// present exactly when set.
    pub open spec fn spec_fields(&self) -> Seq<(Seq<char>, Json)> {
        self.spec_part4_onto(self.spec_part3_onto(self.spec_part2_onto(self.spec_part1_onto(Seq::<(Seq<char>, Json)>::empty()))))
    }

    pub open spec fn spec_json(&self) -> Json {
        Json::Obj(self.spec_fields())
    }

    fn push_part1(&self, f: &mut Vec<(String, JsonValue)>)
        requires
            req_id_ok(self.req_id),
        ensures
            json_fields_view(final(f)@) == self.spec_part1_onto(json_fields_view(old(f)@)),
    {
        push_str_field(f, "event", &self.event);
        push_str_field(f, "token", &self.token);
        push_req_id_field(f, &self.req_id);
        push_str_field(f, "orderType", &self.order_type);
        push_str_field(f, "symbol", &self.symbol);
        push_str_field(f, "side", &self.side);
        push_str_field(f, "quantity", &self.quantity);
    }
    fn push_part2(&self, f: &mut Vec<(String, JsonValue)>)
        requires
            req_id_ok(self.req_id),
        ensures
            json_fields_view(final(f)@) == self.spec_part2_onto(json_fields_view(old(f)@)),
    {
        push_opt_str_field(f, "price", &self.price);
        push_opt_str_field(f, "stopPrice", &self.stop_price);
        push_opt_str_field(f, "limitPrice", &self.limit_price);
        push_opt_str_field(f, "timeInForce", &self.time_in_force);
        push_opt_str_field(f, "expireTime", &self.expire_time);
        push_opt_bool_field(f, "postOnly", &self.post_only);
        push_opt_bool_field(f, "reduceOnly", &self.reduce_only);
    }
    fn push_part3(&self, f: &mut Vec<(String, JsonValue)>)
        requires
            req_id_ok(self.req_id),
        ensures
            json_fields_view(final(f)@) == self.spec_part3_onto(json_fields_view(old(f)@)),
    {
        push_opt_str_field(f, "selfTradePrevention", &self.self_trade_prevention);
        push_opt_str_field(f, "triggerSignal", &self.trigger_signal);
        push_opt_str_field(f, "leverage", &self.leverage);
        push_opt_str_field(f, "clientOrderId", &self.client_order_id);
        push_opt_str_field(f, "takeProfit", &self.take_profit);
        push_opt_str_field(f, "takeProfitPrice", &self.take_profit_price);
        push_opt_str_field(f, "stopLoss", &self.stop_loss);
    }
    fn push_part4(&self, f: &mut Vec<(String, JsonValue)>)
        requires
            req_id_ok(self.req_id),
        ensures
            json_fields_view(final(f)@) == self.spec_part4_onto(json_fields_view(old(f)@)),
    {
        push_opt_str_field(f, "stopLossPrice", &self.stop_loss_price);
        push_opt_bool_field(f, "conditionalClose", &self.conditional_close);
        push_opt_str_field(f, "closePrice", &self.close_price);
        push_opt_str_field(f, "takeProfitTrigger", &self.take_profit_trigger);
        push_opt_str_field(f, "stopLossTrigger", &self.stop_loss_trigger);
        push_opt_str_field(f, "positionId", &self.position_id);
    }

    /// Build the frame's JSON form.
    pub fn to_json(&self) -> (r: JsonValue)
        requires
            req_id_ok(self.req_id),
        ensures
            r@ == self.spec_json(),
    {
        let mut f: Vec<(String, JsonValue)> = Vec::new();
        proof {
            assert(json_fields_view(f@) =~= Seq::<(Seq<char>, Json)>::empty());
        }
        self.push_part1(&mut f);
        self.push_part2(&mut f);
        self.push_part3(&mut f);
        self.push_part4(&mut f);
        JsonValue::Obj(f)
    }
}

/// Outbound frame: an in-place amendment of an order.
pub struct WsAmendOrderRequest {
    pub event: String,
    pub token: String,
    pub req_id: Option<u64>,
    pub txid: String,
    pub quantity: Option<String>,
    pub price: Option<String>,
    pub stop_price: Option<String>,
    pub limit_price: Option<String>,
    pub time_in_force: Option<String>,
    pub expire_time: Option<String>,
    pub post_only: Option<bool>,
    pub reduce_only: Option<bool>,
    pub trigger_signal: Option<String>,
    pub take_profit: Option<String>,
    pub take_profit_price: Option<String>,
    pub stop_loss: Option<String>,
    pub stop_loss_price: Option<String>,
    pub conditional_close: Option<bool>,
    pub close_price: Option<String>,
    pub take_profit_trigger: Option<String>,
    pub stop_loss_trigger: Option<String>,
}

impl WsAmendOrderRequest {
    /// Fields of this frame, appended onto `base` in wire order.
    pub open spec fn spec_part1_onto(&self, base: Seq<(Seq<char>, Json)>) -> Seq<
        (Seq<char>, Json),
    > {
        base + seq![("event"@, Json::Str(self.event@))]
            + seq![("token"@, Json::Str(self.token@))]
            + opt_int_seg("req_id"@, opt_u64_int(&self.req_id))
            + seq![("txid"@, Json::Str(self.txid@))]
            + opt_str_seg("quantity"@, opt_str_view(&self.quantity))
            + opt_str_seg("price"@, opt_str_view(&self.price))
            + opt_str_seg("stopPrice"@, opt_str_view(&self.stop_price))
    }
    /// Fields of this frame, appended onto `base` in wire order.
    pub open spec fn spec_part2_onto(&self, base: Seq<(Seq<char>, Json)>) -> Seq<
        (Seq<char>, Json),
    > {
        base + opt_str_seg("limitPrice"@, opt_str_view(&self.limit_price))
            + opt_str_seg("timeInForce"@, opt_str_view(&self.time_in_force))
            + opt_str_seg("expireTime"@, opt_str_view(&self.expire_time))
            + opt_bool_seg("postOnly"@, opt_bool_view(&self.post_only))
            + opt_bool_seg("reduceOnly"@, opt_bool_view(&self.reduce_only))
            + opt_str_seg("triggerSignal"@, opt_str_view(&self.trigger_signal))
            + opt_str_seg("takeProfit"@, opt_str_view(&self.take_profit))
    }
    /// Fields of this frame, appended onto `base` in wire order.
    pub open spec fn spec_part3_onto(&self, base: Seq<(Seq<char>, Json)>) -> Seq<
        (Seq<char>, Json),
    > {
        base + opt_str_seg("takeProfitPrice"@, opt_str_view(&self.take_profit_price))
            + opt_str_seg("stopLoss"@, opt_str_view(&self.stop_loss))
            + opt_str_seg("stopLossPrice"@, opt_str_view(&self.stop_loss_price))
            + opt_bool_seg("conditionalClose"@, opt_bool_view(&self.conditional_close))
            + opt_str_seg("closePrice"@, opt_str_view(&self.close_price))
            + opt_str_seg("takeProfitTrigger"@, opt_str_view(&self.take_profit_trigger))
            + opt_str_seg("stopLossTrigger"@, opt_str_view(&self.stop_loss_trigger))
    }

    /// The frame's complete field list, in wire order; optional fields
    /// present exactly when set.
    pub open spec fn spec_fields(&self) -> Seq<(Seq<char>, Json)> {
        self.spec_part3_onto(self.spec_part2_onto(self.spec_part1_onto(Seq::<(Seq<char>, Json)>::empty())))
    }

    pub open spec fn spec_json(&self) -> Json {
        Json::Obj(self.spec_fields())
    }

    fn push_part1(&self, f: &mut Vec<(String, JsonValue)>)
        requires
            req_id_ok(self.req_id),
        ensures
            json_fields_view(final(f)@) == self.spec_part1_onto(json_fields_view(old(f)@)),
    {
        push_str_field(f, "event", &self.event);
        push_str_field(f, "token", &self.token);
        push_req_id_field(f, &self.req_id);
        push_str_field(f, "txid", &self.txid);
        push_opt_str_field(f, "quantity", &self.quantity);
        push_opt_str_field(f, "price", &self.price);
        push_opt_str_field(f, "stopPrice", &self.stop_price);
    }
    fn push_part2(&self, f: &mut Vec<(String, JsonValue)>)
        requires
            req_id_ok(self.req_id),
        ensures
            json_fields_view(final(f)@) == self.spec_part2_onto(json_fields_view(old(f)@)),
    {
        push_opt_str_field(f, "limitPrice", &self.limit_price);
        push_opt_str_field(f, "timeInForce", &self.time_in_force);
        push_opt_str_field(f, "expireTime", &self.expire_time);
        push_opt_bool_field(f, "postOnly", &self.post_only);
        push_opt_bool_field(f, "reduceOnly", &self.reduce_only);
        push_opt_str_field(f, "triggerSignal", &self.trigger_signal);
        push_opt_str_field(f, "takeProfit", &self.take_profit);
    }
    fn push_part3(&self, f: &mut Vec<(String, JsonValue)>)
        requires
            req_id_ok(self.req_id),
        ensures
            json_fields_view(final(f)@) == self.spec_part3_onto(json_fields_view(old(f)@)),
    {
        push_opt_str_field(f, "takeProfitPrice", &self.take_profit_price);
        push_opt_str_field(f, "stopLoss", &self.stop_loss);
        push_opt_str_field(f, "stopLossPrice", &self.stop_loss_price);
        push_opt_bool_field(f, "conditionalClose", &self.conditional_close);
        push_opt_str_field(f, "closePrice", &self.close_price);
        push_opt_str_field(f, "takeProfitTrigger", &self.take_profit_trigger);
        push_opt_str_field(f, "stopLossTrigger", &self.stop_loss_trigger);
    }

    /// Build the frame's JSON form.
    pub fn to_json(&self) -> (r: JsonValue)
        requires
            req_id_ok(self.req_id),
        ensures
            r@ == self.spec_json(),
    {
        let mut f: Vec<(String, JsonValue)> = Vec::new();
        proof {
            assert(json_fields_view(f@) =~= Seq::<(Seq<char>, Json)>::empty());
        }
        self.push_part1(&mut f);
        self.push_part2(&mut f);
        self.push_part3(&mut f);
        JsonValue::Obj(f)
    }
}

/// Outbound frame: an edit that replaces an order.
pub struct WsEditOrderRequest {
    pub event: String,
    pub token: String,
    pub req_id: Option<u64>,
    pub txid: String,
    pub quantity: Option<String>,
    pub price: Option<String>,
    pub stop_price: Option<String>,
    pub limit_price: Option<String>,
    pub time_in_force: Option<String>,
    pub expire_time: Option<String>,
    pub post_only: Option<bool>,
    pub reduce_only: Option<bool>,
    pub trigger_signal: Option<String>,
    pub take_profit: Option<String>,
    pub take_profit_price: Option<String>,
    pub stop_loss: Option<String>,
    pub stop_loss_price: Option<String>,
    pub conditional_close: Option<bool>,
    pub close_price: Option<String>,
    pub take_profit_trigger: Option<String>,
    pub stop_loss_trigger: Option<String>,
}

impl WsEditOrderRequest {
    /// Fields of this frame, appended onto `base` in wire order.
    pub open spec fn spec_part1_onto(&self, base: Seq<(Seq<char>, Json)>) -> Seq<
        (Seq<char>, Json),
    > {
        base + seq![("event"@, Json::Str(self.event@))]
            + seq![("token"@, Json::Str(self.token@))]
            + opt_int_seg("req_id"@, opt_u64_int(&self.req_id))
            + seq![("txid"@, Json::Str(self.txid@))]
            + opt_str_seg("quantity"@, opt_str_view(&self.quantity))
            + opt_str_seg("price"@, opt_str_view(&self.price))
            + opt_str_seg("stopPrice"@, opt_str_view(&self.stop_price))
    }
    /// Fields of this frame, appended onto `base` in wire order.
    pub open spec fn spec_part2_onto(&self, base: Seq<(Seq<char>, Json)>) -> Seq<
        (Seq<char>, Json),
    > {
        base + opt_str_seg("limitPrice"@, opt_str_view(&self.limit_price))
            + opt_str_seg("timeInForce"@, opt_str_view(&self.time_in_force))
            + opt_str_seg("expireTime"@, opt_str_view(&self.expire_time))
            + opt_bool_seg("postOnly"@, opt_bool_view(&self.post_only))
            + opt_bool_seg("reduceOnly"@, opt_bool_view(&self.reduce_only))
            + opt_str_seg("triggerSignal"@, opt_str_view(&self.trigger_signal))
            + opt_str_seg("takeProfit"@, opt_str_view(&self.take_profit))
    }
    /// Fields of this frame, appended onto `base` in wire order.
    pub open spec fn spec_part3_onto(&self, base: Seq<(Seq<char>, Json)>) -> Seq<
        (Seq<char>, Json),
    > {
        base + opt_str_seg("takeProfitPrice"@, opt_str_view(&self.take_profit_price))
            + opt_str_seg("stopLoss"@, opt_str_view(&self.stop_loss))
            + opt_str_seg("stopLossPrice"@, opt_str_view(&self.stop_loss_price))
            + opt_bool_seg("conditionalClose"@, opt_bool_view(&self.conditional_close))
            + opt_str_seg("closePrice"@, opt_str_view(&self.close_price))
            + opt_str_seg("takeProfitTrigger"@, opt_str_view(&self.take_profit_trigger))
            + opt_str_seg("stopLossTrigger"@, opt_str_view(&self.stop_loss_trigger))
    }

    /// The frame's complete field list, in wire order; optional fields
    /// present exactly when set.
    pub open spec fn spec_fields(&self) -> Seq<(Seq<char>, Json)> {
        self.spec_part3_onto(self.spec_part2_onto(self.spec_part1_onto(Seq::<(Seq<char>, Json)>::empty())))
    }

    pub open spec fn spec_json(&self) -> Json {
        Json::Obj(self.spec_fields())
    }

    fn push_part1(&self, f: &mut Vec<(String, JsonValue)>)
        requires
            req_id_ok(self.req_id),
        ensures
            json_fields_view(final(f)@) == self.spec_part1_onto(json_fields_view(old(f)@)),
    {
        push_str_field(f, "event", &self.event);
        push_str_field(f, "token", &self.token);
        push_req_id_field(f, &self.req_id);
        push_str_field(f, "txid", &self.txid);
        push_opt_str_field(f, "quantity", &self.quantity);
        push_opt_str_field(f, "price", &self.price);
        push_opt_str_field(f, "stopPrice", &self.stop_price);
    }
    fn push_part2(&self, f: &mut Vec<(String, JsonValue)>)
        requires
            req_id_ok(self.req_id),
        ensures
            json_fields_view(final(f)@) == self.spec_part2_onto(json_fields_view(old(f)@)),
    {
        push_opt_str_field(f, "limitPrice", &self.limit_price);
        push_opt_str_field(f, "timeInForce", &self.time_in_force);
        push_opt_str_field(f, "expireTime", &self.expire_time);
        push_opt_bool_field(f, "postOnly", &self.post_only);
        push_opt_bool_field(f, "reduceOnly", &self.reduce_only);
        push_opt_str_field(f, "triggerSignal", &self.trigger_signal);
        push_opt_str_field(f, "takeProfit", &self.take_profit);
    }
    fn push_part3(&self, f: &mut Vec<(String, JsonValue)>)
        requires
            req_id_ok(self.req_id),
        ensures
            json_fields_view(final(f)@) == self.spec_part3_onto(json_fields_view(old(f)@)),
    {
        push_opt_str_field(f, "takeProfitPrice", &self.take_profit_price);
        push_opt_str_field(f, "stopLoss", &self.stop_loss);
        push_opt_str_field(f, "stopLossPrice", &self.stop_loss_price);
        push_opt_bool_field(f, "conditionalClose", &self.conditional_close);
        push_opt_str_field(f, "closePrice", &self.close_price);
        push_opt_str_field(f, "takeProfitTrigger", &self.take_profit_trigger);
        push_opt_str_field(f, "stopLossTrigger", &self.stop_loss_trigger);
    }

    /// Build the frame's JSON form.
    pub fn to_json(&self) -> (r: JsonValue)
        requires
            req_id_ok(self.req_id),
        ensures
            r@ == self.spec_json(),
    {
        let mut f: Vec<(String, JsonValue)> = Vec::new();
        proof {
            assert(json_fields_view(f@) =~= Seq::<(Seq<char>, Json)>::empty());
        }
        self.push_part1(&mut f);
        self.push_part2(&mut f);
        self.push_part3(&mut f);
        JsonValue::Obj(f)
    }
}

/// Outbound frame: cancelling one order.
pub struct WsCancelOrderRequest {
    pub event: String,
    pub token: String,
    pub req_id: Option<u64>,
    pub txid: String,
}

impl WsCancelOrderRequest {
    /// Fields of this frame, appended onto `base` in wire order.
    pub open spec fn spec_part1_onto(&self, base: Seq<(Seq<char>, Json)>) -> Seq<
        (Seq<char>, Json),
    > {
        base + seq![("event"@, Json::Str(self.event@))]
            + seq![("token"@, Json::Str(self.token@))]
            + opt_int_seg("req_id"@, opt_u64_int(&self.req_id))
            + seq![("txid"@, Json::Str(self.txid@))]
    }

    /// The frame's complete field list, in wire order; optional fields
    /// present exactly when set.
    pub open spec fn spec_fields(&self) -> Seq<(Seq<char>, Json)> {
        self.spec_part1_onto(Seq::<(Seq<char>, Json)>::empty())
    }

    pub open spec fn spec_json(&self) -> Json {
        Json::Obj(self.spec_fields())
    }

    fn push_part1(&self, f: &mut Vec<(String, JsonValue)>)
        requires
            req_id_ok(self.req_id),
        ensures
            json_fields_view(final(f)@) == self.spec_part1_onto(json_fields_view(old(f)@)),
    {
        push_str_field(f, "event", &self.event);
        push_str_field(f, "token", &self.token);
        push_req_id_field(f, &self.req_id);
        push_str_field(f, "txid", &self.txid);
    }

    /// Build the frame's JSON form.
    pub fn to_json(&self) -> (r: JsonValue)
        requires
            req_id_ok(self.req_id),
        ensures
            r@ == self.spec_json(),
    {
        let mut f: Vec<(String, JsonValue)> = Vec::new();
        proof {
            assert(json_fields_view(f@) =~= Seq::<(Seq<char>, Json)>::empty());
        }
        self.push_part1(&mut f);
        JsonValue::Obj(f)
    }
}

/// Outbound frame: cancelling every open order.
pub struct WsCancelAllRequest {
    pub event: String,
    pub token: String,
    pub req_id: Option<u64>,
}

impl WsCancelAllRequest {
    /// Fields of this frame, appended onto `base` in wire order.
    pub open spec fn spec_part1_onto(&self, base: Seq<(Seq<char>, Json)>) -> Seq<
        (Seq<char>, Json),
    > {
        base + seq![("event"@, Json::Str(self.event@))]
            + seq![("token"@, Json::Str(self.token@))]
            + opt_int_seg("req_id"@, opt_u64_int(&self.req_id))
    }

    /// The frame's complete field list, in wire order; optional fields
    /// present exactly when set.
    pub open spec fn spec_fields(&self) -> Seq<(Seq<char>, Json)> {
        self.spec_part1_onto(Seq::<(Seq<char>, Json)>::empty())
    }

    pub open spec fn spec_json(&self) -> Json {
        Json::Obj(self.spec_fields())
    }

    fn push_part1(&self, f: &mut Vec<(String, JsonValue)>)
        requires
            req_id_ok(self.req_id),
        ensures
            json_fields_view(final(f)@) == self.spec_part1_onto(json_fields_view(old(f)@)),
    {
        push_str_field(f, "event", &self.event);
        push_str_field(f, "token", &self.token);
        push_req_id_field(f, &self.req_id);
    }

    /// Build the frame's JSON form.
    pub fn to_json(&self) -> (r: JsonValue)
        requires
            req_id_ok(self.req_id),
        ensures
            r@ == self.spec_json(),
    {
        let mut f: Vec<(String, JsonValue)> = Vec::new();
        proof {
            assert(json_fields_view(f@) =~= Seq::<(Seq<char>, Json)>::empty());
        }
        self.push_part1(&mut f);
        JsonValue::Obj(f)
    }
}

/// Outbound frame: arming or disarming cancel-on-disconnect.
pub struct WsCancelOnDisconnectRequest {
    pub event: String,
    pub token: String,
    pub req_id: Option<u64>,
    pub enable: bool,
}

impl WsCancelOnDisconnectRequest {
    /// Fields of this frame, appended onto `base` in wire order.
    pub open spec fn spec_part1_onto(&self, base: Seq<(Seq<char>, Json)>) -> Seq<
        (Seq<char>, Json),
    > {
        base + seq![("event"@, Json::Str(self.event@))]
            + seq![("token"@, Json::Str(self.token@))]
            + opt_int_seg("req_id"@, opt_u64_int(&self.req_id))
            + seq![("enable"@, Json::Bool(self.enable))]
    }

    /// The frame's complete field list, in wire order; optional fields
    /// present exactly when set.
    pub open spec fn spec_fields(&self) -> Seq<(Seq<char>, Json)> {
        self.spec_part1_onto(Seq::<(Seq<char>, Json)>::empty())
    }

    pub open spec fn spec_json(&self) -> Json {
        Json::Obj(self.spec_fields())
    }

    fn push_part1(&self, f: &mut Vec<(String, JsonValue)>)
        requires
            req_id_ok(self.req_id),
        ensures
            json_fields_view(final(f)@) == self.spec_part1_onto(json_fields_view(old(f)@)),
    {
        push_str_field(f, "event", &self.event);
        push_str_field(f, "token", &self.token);
        push_req_id_field(f, &self.req_id);
        push_bool_field(f, "enable", self.enable);
    }

    /// Build the frame's JSON form.
    pub fn to_json(&self) -> (r: JsonValue)
        requires
            req_id_ok(self.req_id),
        ensures
            r@ == self.spec_json(),
    {
        let mut f: Vec<(String, JsonValue)> = Vec::new();
        proof {
            assert(json_fields_view(f@) =~= Seq::<(Seq<char>, Json)>::empty());
        }
        self.push_part1(&mut f);
        JsonValue::Obj(f)
    }
}


// ─── Inbound message shapes (server to client) ───

/// Level-1 market data for one symbol.
pub struct WsTickerMessage {
    pub channel: String,
    pub symbol: String,
    pub best_ask_price: String,
    pub best_ask_quantity: String,
    pub best_bid_price: String,
    pub best_bid_quantity: String,
    pub last_trade_price: String,
    pub last_trade_quantity: String,
    pub volume_24h: String,
    pub vwap_24h: String,
    pub trades_24h: u64,
    pub low_24h: String,
    pub high_24h: String,
    pub open_24h: String,
}

/// One side's level of the order book.
pub struct OrderBookEntry {
    pub price: String,
    pub quantity: String,
}

/// Level-2 book snapshot or update.
pub struct WsBookMessage {
    pub channel: String,
    pub symbol: String,
    pub bids: Vec<OrderBookEntry>,
    pub asks: Vec<OrderBookEntry>,
}

/// One OHLC candle.
pub struct CandleData {
    pub time: u64,
    pub open: String,
    pub high: String,
    pub low: String,
    pub close: String,
    pub volume: String,
}

/// A batch of candles for one symbol.
pub struct WsCandlesMessage {
    pub channel: String,
    pub symbol: String,
    pub interval: u32,
    pub data: Vec<CandleData>,
}

/// One public trade.
pub struct TradeData {
    pub price: String,
    pub quantity: String,
    pub time: u64,
    pub side: String,
}

/// A batch of public trades for one symbol.
pub struct WsTradesMessage {
    pub channel: String,
    pub symbol: String,
    pub trades: Vec<TradeData>,
}

/// Reference data for one instrument.
pub struct InstrumentData {
    pub symbol: String,
    pub status: String,
    pub base_currency: String,
    pub quote_currency: String,
    pub price_decimals: Option<u32>,
    pub quantity_decimals: Option<u32>,
    pub marginable: bool,
    pub margin_ratio: String,
    pub max_leverage: String,
    pub min_leverage: String,
    pub maker_fee: String,
    pub taker_fee: String,
    pub min_volume: String,
    pub max_volume: String,
    pub tick_size: String,
    pub lot_size: String,
}

/// A batch of instrument definitions.
pub struct WsInstrumentsMessage {
    pub channel: String,
    pub symbol: Option<String>,
    pub data: Vec<InstrumentData>,
}

/// Account balances, asset by asset, in wire order.
pub struct WsBalancesMessage {
    pub channel: String,
    pub balances: Vec<(String, String)>,
}

/// One fill of the caller's own orders.
pub struct ExecutionData {
    pub symbol: String,
    pub order_id: String,
    pub exec_id: String,
    pub quantity: String,
    pub price: String,
    pub side: String,
    pub time: u64,
    pub cost: String,
    pub fee: String,
    pub fee_currency: String,
    pub liquidity: String,
}

/// A batch of the caller's fills.
pub struct WsExecutionsMessage {
    pub channel: String,
    pub executions: Vec<ExecutionData>,
}

/// Per-order outcome inside a batch-add acknowledgment.
pub struct BatchAddResult {
    pub txid: Option<String>,
    pub error_message: Option<String>,
    pub status: Option<String>,
    pub client_order_id: Option<String>,
}

/// Per-order outcome inside a batch-cancel acknowledgment.
pub struct BatchCancelResult {
    pub txid: Option<String>,
    pub error_message: Option<String>,
}

/// Administrative events, tagged by `event` on the wire. `Unknown` stands
/// for an unrecognised administrative event; the classifier itself keeps
/// unmatched frames raw instead.
pub enum WsAdminResponse {
    SystemStatus { status: String, version: String },
    SubscriptionStatus {
        channel: String,
        status: String,
        req_id: Option<u64>,
        error_message: Option<String>,
    },
    PingStatus { req_id: Option<u64> },
    Heartbeat {},
    Unknown,
}

/// Trading acknowledgments, tagged by `event` on the wire. `Unknown` stands
/// for an unrecognised acknowledgment; the classifier itself keeps
/// unmatched frames raw instead.
pub enum WsUserTradingResponse {
    AddOrderStatus {
        status: String,
        txid: Option<String>,
        req_id: Option<u64>,
        error_message: Option<String>,
    },
    AmendOrderStatus {
        status: String,
        txid: Option<String>,
        req_id: Option<u64>,
        error_message: Option<String>,
    },
    EditOrderStatus {
        status: String,
        txid: Option<String>,
        req_id: Option<u64>,
        error_message: Option<String>,
    },
    CancelOrderStatus {
        status: String,
        txid: Option<String>,
        req_id: Option<u64>,
        error_message: Option<String>,
    },
    CancelAllStatus {
        status: String,
        count: Option<u64>,
        req_id: Option<u64>,
        error_message: Option<String>,
    },
    CancelOnDisconnectStatus {
        status: String,
        req_id: Option<u64>,
        error_message: Option<String>,
    },
    BatchAddStatus {
        status: String,
        results: Option<Vec<BatchAddResult>>,
        req_id: Option<u64>,
        error_message: Option<String>,
    },
    BatchCancelStatus {
        status: String,
        results: Option<Vec<BatchCancelResult>>,
        req_id: Option<u64>,
        error_message: Option<String>,
    },
    Unknown,
}

/// One classified inbound frame: administrative, market data, user data,
/// trading acknowledgment, or the raw document when nothing matched.
pub enum WsIncomingMessage {
    Admin(WsAdminResponse),
    TickerMsg(WsTickerMessage),
    BookMsg(WsBookMessage),
    CandlesMsg(WsCandlesMessage),
    TradesMsg(WsTradesMessage),
    InstrumentsMsg(WsInstrumentsMessage),
    BalancesMsg(WsBalancesMessage),
    ExecutionsMsg(WsExecutionsMessage),
    Trading(WsUserTradingResponse),
    CatchAll(JsonValue),
}


/// One subscription intent: a named channel plus its parameters. Used only
/// to build subscribe and unsubscribe frames; the engine keeps no registry
/// of active subscriptions.
pub enum WsSubscriptionPayload {
    Ticker { symbol: String },
    Book { symbol: String, depth: u32 },
    Candles { symbol: String, interval: u32 },
    Trades { symbol: String },
    Instruments { symbol: Option<String> },
    Orders { symbol: String },
    Status,
    Heartbeat,
    Ping,
    Balances,
    Executions,
}

impl WsSubscriptionPayload {
    /// The channel name and its parameters, appended onto `base`.
    pub open spec fn spec_fields_onto(&self, base: Seq<(Seq<char>, Json)>) -> Seq<
        (Seq<char>, Json),
    > {
        match self {
            WsSubscriptionPayload::Ticker { symbol } => base + seq![("name"@, Json::Str("ticker"@))]
                + seq![("symbol"@, Json::Str(symbol@))],
            WsSubscriptionPayload::Book { symbol, depth } => base + seq![("name"@, Json::Str("book"@))]
                + seq![("symbol"@, Json::Str(symbol@))]
                + seq![("depth"@, Json::Int(*depth as int))],
            WsSubscriptionPayload::Candles { symbol, interval } => base + seq![("name"@, Json::Str("candles"@))]
                + seq![("symbol"@, Json::Str(symbol@))]
                + seq![("interval"@, Json::Int(*interval as int))],
            WsSubscriptionPayload::Trades { symbol } => base + seq![("name"@, Json::Str("trades"@))]
                + seq![("symbol"@, Json::Str(symbol@))],
            WsSubscriptionPayload::Instruments { symbol } => base + seq![("name"@, Json::Str("instruments"@))]
                + opt_str_seg("symbol"@, opt_str_view(symbol)),
            WsSubscriptionPayload::Orders { symbol } => base + seq![("name"@, Json::Str("orders"@))]
                + seq![("symbol"@, Json::Str(symbol@))],
            WsSubscriptionPayload::Status => base + seq![("name"@, Json::Str("status"@))],
            WsSubscriptionPayload::Heartbeat => base + seq![("name"@, Json::Str("heartbeat"@))],
            WsSubscriptionPayload::Ping => base + seq![("name"@, Json::Str("ping"@))],
            WsSubscriptionPayload::Balances => base + seq![("name"@, Json::Str("balances"@))],
            WsSubscriptionPayload::Executions => base + seq![("name"@, Json::Str("executions"@))],
        }
    }

    /// Append the channel name and its parameters.
    pub fn push_fields(&self, f: &mut Vec<(String, JsonValue)>)
        ensures
            json_fields_view(final(f)@) == self.spec_fields_onto(json_fields_view(old(f)@)),
    {
        match self {
            WsSubscriptionPayload::Ticker { symbol } => {
                push_lit_field(f, "name", "ticker");
                push_str_field(f, "symbol", symbol);
            },
            WsSubscriptionPayload::Book { symbol, depth } => {
                push_lit_field(f, "name", "book");
                push_str_field(f, "symbol", symbol);
                push_int_field(f, "depth", *depth as i64);
            },
            WsSubscriptionPayload::Candles { symbol, interval } => {
                push_lit_field(f, "name", "candles");
                push_str_field(f, "symbol", symbol);
                push_int_field(f, "interval", *interval as i64);
            },
            WsSubscriptionPayload::Trades { symbol } => {
                push_lit_field(f, "name", "trades");
                push_str_field(f, "symbol", symbol);
            },
            WsSubscriptionPayload::Instruments { symbol } => {
                push_lit_field(f, "name", "instruments");
                push_opt_str_field(f, "symbol", symbol);
            },
            WsSubscriptionPayload::Orders { symbol } => {
                push_lit_field(f, "name", "orders");
                push_str_field(f, "symbol", symbol);
            },
            WsSubscriptionPayload::Status => {
                push_lit_field(f, "name", "status");
            },
            WsSubscriptionPayload::Heartbeat => {
                push_lit_field(f, "name", "heartbeat");
            },
            WsSubscriptionPayload::Ping => {
                push_lit_field(f, "name", "ping");
            },
            WsSubscriptionPayload::Balances => {
                push_lit_field(f, "name", "balances");
            },
            WsSubscriptionPayload::Executions => {
                push_lit_field(f, "name", "executions");
            },
        }
    }
}
/// Outbound frame: entering a subscription.
pub struct WsSubscribeRequest {
    pub event: String,
    pub req_id: Option<u64>,
    pub subscription: WsSubscriptionPayload,
}

impl WsSubscribeRequest {
    /// The frame's complete field list: the command, the optional request
    /// identifier, then the subscription's channel name and parameters.
    pub open spec fn spec_fields(&self) -> Seq<(Seq<char>, Json)> {
        self.subscription.spec_fields_onto(
            Seq::<(Seq<char>, Json)>::empty() + seq![("event"@, Json::Str(self.event@))]
                + opt_int_seg("req_id"@, opt_u64_int(&self.req_id)),
        )
    }

    pub open spec fn spec_json(&self) -> Json {
        Json::Obj(self.spec_fields())
    }

    /// Build the frame's JSON form.
    pub fn to_json(&self) -> (r: JsonValue)
        requires
            req_id_ok(self.req_id),
        ensures
            r@ == self.spec_json(),
    {
        let mut f: Vec<(String, JsonValue)> = Vec::new();
        proof {
            assert(json_fields_view(f@) =~= Seq::<(Seq<char>, Json)>::empty());
        }
        push_str_field(&mut f, "event", &self.event);
        push_req_id_field(&mut f, &self.req_id);
        self.subscription.push_fields(&mut f);
        JsonValue::Obj(f)
    }
}

/// Outbound frame: leaving a subscription.
pub struct WsUnsubscribeRequest {
    pub event: String,
    pub req_id: Option<u64>,
    pub subscription: WsSubscriptionPayload,
}

impl WsUnsubscribeRequest {
    /// The frame's complete field list: the command, the optional request
    /// identifier, then the subscription's channel name and parameters.
    pub open spec fn spec_fields(&self) -> Seq<(Seq<char>, Json)> {
        self.subscription.spec_fields_onto(
            Seq::<(Seq<char>, Json)>::empty() + seq![("event"@, Json::Str(self.event@))]
                + opt_int_seg("req_id"@, opt_u64_int(&self.req_id)),
        )
    }

    pub open spec fn spec_json(&self) -> Json {
        Json::Obj(self.spec_fields())
    }

    /// Build the frame's JSON form.
    pub fn to_json(&self) -> (r: JsonValue)
        requires
            req_id_ok(self.req_id),
        ensures
            r@ == self.spec_json(),
    {
        let mut f: Vec<(String, JsonValue)> = Vec::new();
        proof {
            assert(json_fields_view(f@) =~= Seq::<(Seq<char>, Json)>::empty());
        }
        push_str_field(&mut f, "event", &self.event);
        push_req_id_field(&mut f, &self.req_id);
        self.subscription.push_fields(&mut f);
        JsonValue::Obj(f)
    }
}

/// One order inside a batch-add command.
pub struct BatchAddOrderSpec {
    pub order_type: String,
    pub symbol: String,
    pub side: String,
    pub quantity: String,
    pub price: Option<String>,
    pub stop_price: Option<String>,
    pub limit_price: Option<String>,
    pub time_in_force: Option<String>,
    pub expire_time: Option<String>,
    pub post_only: Option<bool>,
    pub reduce_only: Option<bool>,
    pub trigger_signal: Option<String>,
    pub leverage: Option<String>,
    pub client_order_id: Option<String>,
    pub take_profit: Option<String>,
    pub take_profit_price: Option<String>,
    pub stop_loss: Option<String>,
    pub stop_loss_price: Option<String>,
    pub conditional_close: Option<bool>,
    pub close_price: Option<String>,
    pub take_profit_trigger: Option<String>,
    pub stop_loss_trigger: Option<String>,
    pub position_id: Option<String>,
}

impl BatchAddOrderSpec {
    /// Fields of this specification, appended onto `base` in wire order.
    pub open spec fn spec_part1_onto(&self, base: Seq<(Seq<char>, Json)>) -> Seq<
        (Seq<char>, Json),
    > {
        base + seq![("orderType"@, Json::Str(self.order_type@))]
            + seq![("symbol"@, Json::Str(self.symbol@))]
            + seq![("side"@, Json::Str(self.side@))]
            + seq![("quantity"@, Json::Str(self.quantity@))]
            + opt_str_seg("price"@, opt_str_view(&self.price))
            + opt_str_seg("stopPrice"@, opt_str_view(&self.stop_price))
            + opt_str_seg("limitPrice"@, opt_str_view(&self.limit_price))
    }
    /// Fields of this specification, appended onto `base` in wire order.
    pub open spec fn spec_part2_onto(&self, base: Seq<(Seq<char>, Json)>) -> Seq<
        (Seq<char>, Json),
    > {
        base + opt_str_seg("timeInForce"@, opt_str_view(&self.time_in_force))
            + opt_str_seg("expireTime"@, opt_str_view(&self.expire_time))
            + opt_bool_seg("postOnly"@, opt_bool_view(&self.post_only))
            + opt_bool_seg("reduceOnly"@, opt_bool_view(&self.reduce_only))
            + opt_str_seg("triggerSignal"@, opt_str_view(&self.trigger_signal))
            + opt_str_seg("leverage"@, opt_str_view(&self.leverage))
            + opt_str_seg("clientOrderId"@, opt_str_view(&self.client_order_id))
    }
    /// Fields of this specification, appended onto `base` in wire order.
    pub open spec fn spec_part3_onto(&self, base: Seq<(Seq<char>, Json)>) -> Seq<
        (Seq<char>, Json),
    > {
        base + opt_str_seg("takeProfit"@, opt_str_view(&self.take_profit))
            + opt_str_seg("takeProfitPrice"@, opt_str_view(&self.take_profit_price))
            + opt_str_seg("stopLoss"@, opt_str_view(&self.stop_loss))
            + opt_str_seg("stopLossPrice"@, opt_str_view(&self.stop_loss_price))
            + opt_bool_seg("conditionalClose"@, opt_bool_view(&self.conditional_close))
            + opt_str_seg("closePrice"@, opt_str_view(&self.close_price))
            + opt_str_seg("takeProfitTrigger"@, opt_str_view(&self.take_profit_trigger))
    }
    /// Fields of this specification, appended onto `base` in wire order.
    pub open spec fn spec_part4_onto(&self, base: Seq<(Seq<char>, Json)>) -> Seq<
        (Seq<char>, Json),
    > {
        base + opt_str_seg("stopLossTrigger"@, opt_str_view(&self.stop_loss_trigger))
            + opt_str_seg("positionId"@, opt_str_view(&self.position_id))
    }

    /// The specification's complete field list, in wire order; optional
    /// fields present exactly when set.
    pub open spec fn spec_fields(&self) -> Seq<(Seq<char>, Json)> {
        self.spec_part4_onto(self.spec_part3_onto(self.spec_part2_onto(self.spec_part1_onto(Seq::<(Seq<char>, Json)>::empty()))))
    }

    pub open spec fn spec_json(&self) -> Json {
        Json::Obj(self.spec_fields())
    }

    fn push_part1(&self, f: &mut Vec<(String, JsonValue)>)
        ensures
            json_fields_view(final(f)@) == self.spec_part1_onto(json_fields_view(old(f)@)),
    {
        push_str_field(f, "orderType", &self.order_type);
        push_str_field(f, "symbol", &self.symbol);
        push_str_field(f, "side", &self.side);
        push_str_field(f, "quantity", &self.quantity);
        push_opt_str_field(f, "price", &self.price);
        push_opt_str_field(f, "stopPrice", &self.stop_price);
        push_opt_str_field(f, "limitPrice", &self.limit_price);
    }

    fn push_part2(&self, f: &mut Vec<(String, JsonValue)>)
        ensures
            json_fields_view(final(f)@) == self.spec_part2_onto(json_fields_view(old(f)@)),
    {
        push_opt_str_field(f, "timeInForce", &self.time_in_force);
        push_opt_str_field(f, "expireTime", &self.expire_time);
        push_opt_bool_field(f, "postOnly", &self.post_only);
        push_opt_bool_field(f, "reduceOnly", &self.reduce_only);
        push_opt_str_field(f, "triggerSignal", &self.trigger_signal);
        push_opt_str_field(f, "leverage", &self.leverage);
        push_opt_str_field(f, "clientOrderId", &self.client_order_id);
    }

    fn push_part3(&self, f: &mut Vec<(String, JsonValue)>)
        ensures
            json_fields_view(final(f)@) == self.spec_part3_onto(json_fields_view(old(f)@)),
    {
        push_opt_str_field(f, "takeProfit", &self.take_profit);
        push_opt_str_field(f, "takeProfitPrice", &self.take_profit_price);
        push_opt_str_field(f, "stopLoss", &self.stop_loss);
        push_opt_str_field(f, "stopLossPrice", &self.stop_loss_price);
        push_opt_bool_field(f, "conditionalClose", &self.conditional_close);
        push_opt_str_field(f, "closePrice", &self.close_price);
        push_opt_str_field(f, "takeProfitTrigger", &self.take_profit_trigger);
    }

    fn push_part4(&self, f: &mut Vec<(String, JsonValue)>)
        ensures
            json_fields_view(final(f)@) == self.spec_part4_onto(json_fields_view(old(f)@)),
    {
        push_opt_str_field(f, "stopLossTrigger", &self.stop_loss_trigger);
        push_opt_str_field(f, "positionId", &self.position_id);
    }

    /// Build the specification's JSON form.
    pub fn to_json(&self) -> (r: JsonValue)
        ensures
            r@ == self.spec_json(),
    {
        let mut f: Vec<(String, JsonValue)> = Vec::new();
        proof {
            assert(json_fields_view(f@) =~= Seq::<(Seq<char>, Json)>::empty());
        }
        self.push_part1(&mut f);
        self.push_part2(&mut f);
        self.push_part3(&mut f);
        self.push_part4(&mut f);
        JsonValue::Obj(f)
    }
}

/// The JSON forms of a list of batch order specifications, in order.
pub open spec fn spec_batch_orders(s: Seq<BatchAddOrderSpec>) -> Seq<Json>
    decreases s.len(),
{
    if s.len() == 0 {
        Seq::empty()
    } else {
        seq![s[0].spec_json()] + spec_batch_orders(s.drop_first())
    }
}

fn batch_orders_json(orders: &Vec<BatchAddOrderSpec>, from: usize) -> (r: Vec<JsonValue>)
    requires
        from <= orders@.len(),
    ensures
        json_seq_view(r@) == spec_batch_orders(orders@.skip(from as int)),
    decreases orders@.len() - from,
{
    let ghost ov = orders@;
    if from < orders.len() {
        let first = orders[from].to_json();
        let ghost firstv = first@;
        let rest = batch_orders_json(orders, from + 1);
        let ghost restv = json_seq_view(rest@);
        let mut out = rest;
        out.insert(0, first);
        proof {
            assert(out@.drop_first() =~= rest@);
            lemma_json_seq_view(out@);
            lemma_json_seq_view(rest@);
            assert(json_seq_view(out@) =~= seq![firstv] + restv);
            assert(ov.skip(from as int)[0] == ov[from as int]);
            assert(ov.skip(from as int).drop_first() =~= ov.skip(from + 1));
        }
        out
    } else {
        let out: Vec<JsonValue> = Vec::new();
        proof {
            assert(ov.skip(from as int).len() == 0);
            lemma_json_seq_view(out@);
            assert(json_seq_view(out@) =~= Seq::<Json>::empty());
        }
        out
    }
}

/// The JSON strings of a list of order identifiers, in order.
pub open spec fn spec_str_list(s: Seq<String>) -> Seq<Json>
    decreases s.len(),
{
    if s.len() == 0 {
        Seq::empty()
    } else {
        seq![Json::Str(s[0]@)] + spec_str_list(s.drop_first())
    }
}

fn str_list_json(ids: &Vec<String>, from: usize) -> (r: Vec<JsonValue>)
    requires
        from <= ids@.len(),
    ensures
        json_seq_view(r@) == spec_str_list(ids@.skip(from as int)),
    decreases ids@.len() - from,
{
    let ghost sv = ids@;
    if from < ids.len() {
        let first = JsonValue::Str(ids[from].clone());
        let ghost firstv = first@;
        let rest = str_list_json(ids, from + 1);
        let ghost restv = json_seq_view(rest@);
        let mut out = rest;
        out.insert(0, first);
        proof {
            assert(out@.drop_first() =~= rest@);
            lemma_json_seq_view(out@);
            lemma_json_seq_view(rest@);
            assert(json_seq_view(out@) =~= seq![firstv] + restv);
            assert(sv.skip(from as int)[0] == sv[from as int]);
            assert(sv.skip(from as int).drop_first() =~= sv.skip(from + 1));
        }
        out
    } else {
        let out: Vec<JsonValue> = Vec::new();
        proof {
            assert(sv.skip(from as int).len() == 0);
            lemma_json_seq_view(out@);
            assert(json_seq_view(out@) =~= Seq::<Json>::empty());
        }
        out
    }
}

/// Outbound frame: several new orders in one command.
pub struct WsBatchAddRequest {
    pub event: String,
    pub token: String,
    pub req_id: Option<u64>,
    pub orders: Vec<BatchAddOrderSpec>,
}

impl WsBatchAddRequest {
    /// The frame's complete field list: command, token, optional request
    /// identifier, then the order list in order.
    pub open spec fn spec_fields(&self) -> Seq<(Seq<char>, Json)> {
        Seq::<(Seq<char>, Json)>::empty() + seq![("event"@, Json::Str(self.event@))] + seq![
            ("token"@, Json::Str(self.token@)),
        ] + opt_int_seg("req_id"@, opt_u64_int(&self.req_id)) + seq![
            ("orders"@, Json::Arr(spec_batch_orders(self.orders@))),
        ]
    }

    pub open spec fn spec_json(&self) -> Json {
        Json::Obj(self.spec_fields())
    }

    /// Build the frame's JSON form.
    pub fn to_json(&self) -> (r: JsonValue)
        requires
            req_id_ok(self.req_id),
        ensures
            r@ == self.spec_json(),
    {
        let mut f: Vec<(String, JsonValue)> = Vec::new();
        proof {
            assert(json_fields_view(f@) =~= Seq::<(Seq<char>, Json)>::empty());
        }
        push_str_field(&mut f, "event", &self.event);
        push_str_field(&mut f, "token", &self.token);
        push_req_id_field(&mut f, &self.req_id);
        let items = batch_orders_json(&self.orders, 0);
        proof {
            assert(self.orders@.skip(0) =~= self.orders@);
        }
        push_json_field(&mut f, "orders", JsonValue::Arr(items));
        JsonValue::Obj(f)
    }
}

/// Outbound frame: cancelling several orders in one command.
pub struct WsBatchCancelRequest {
    pub event: String,
    pub token: String,
    pub req_id: Option<u64>,
    pub orders: Vec<String>,
}

impl WsBatchCancelRequest {
    /// The frame's complete field list: command, token, optional request
    /// identifier, then the order identifiers in order.
    pub open spec fn spec_fields(&self) -> Seq<(Seq<char>, Json)> {
        Seq::<(Seq<char>, Json)>::empty() + seq![("event"@, Json::Str(self.event@))] + seq![
            ("token"@, Json::Str(self.token@)),
        ] + opt_int_seg("req_id"@, opt_u64_int(&self.req_id)) + seq![
            ("orders"@, Json::Arr(spec_str_list(self.orders@))),
        ]
    }

    pub open spec fn spec_json(&self) -> Json {
        Json::Obj(self.spec_fields())
    }

    /// Build the frame's JSON form.
    pub fn to_json(&self) -> (r: JsonValue)
        requires
            req_id_ok(self.req_id),
        ensures
            r@ == self.spec_json(),
    {
        let mut f: Vec<(String, JsonValue)> = Vec::new();
        proof {
            assert(json_fields_view(f@) =~= Seq::<(Seq<char>, Json)>::empty());
        }
        push_str_field(&mut f, "event", &self.event);
        push_str_field(&mut f, "token", &self.token);
        push_req_id_field(&mut f, &self.req_id);
        let items = str_list_json(&self.orders, 0);
        proof {
            assert(self.orders@.skip(0) =~= self.orders@);
        }
        push_json_field(&mut f, "orders", JsonValue::Arr(items));
        JsonValue::Obj(f)
    }
}

} // verus!
