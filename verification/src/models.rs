//! Typed shapes of the REST surface's responses. These are plain data
//! contracts; maps keep their wire order as key-value pairs, and payloads
//! whose shape varies by request are carried as raw documents.

use vstd::prelude::*;

use crate::json::{json_fields_view, spec_obj_get, Json, JsonValue};
use crate::ws_client::{s_str, s_u64};

verus! {

/// The server's clock.
pub struct ServerTimeResponse {
    pub unixtime: u64,
    pub rfc1123: String,
}

/// What the server-time payload decodes to, when it fits.
pub open spec fn spec_server_time_of(j: Json) -> Option<(u64, Seq<char>)> {
    match j {
        Json::Obj(f) => match (s_u64(f, "unixtime"@), s_str(f, "rfc1123"@)) {
            (Some(t), Some(s)) => Some((t, s)),
            _ => None,
        },
        _ => None,
    }
}

impl ServerTimeResponse {
    /// Decode the payload of a server-time response.
    pub fn from_json(v: &JsonValue) -> (r: Option<ServerTimeResponse>)
        ensures
            match r {
                Some(st) => spec_server_time_of(v@) == Some((st.unixtime, st.rfc1123@)),
                None => spec_server_time_of(v@) is None,
            },
    {
        let f = match v {
            JsonValue::Obj(f) => f,
            _ => {
                return None;
            },
        };
        let unixtime = match crate::json::obj_get(f, "unixtime") {
            Some(JsonValue::Int(n)) => if *n >= 0 {
                *n as u64
            } else {
                return None;
            },
            _ => {
                return None;
            },
        };
        let rfc1123 = match crate::json::obj_get(f, "rfc1123") {
            Some(JsonValue::Str(s)) => s.clone(),
            _ => {
                return None;
            },
        };
        Some(ServerTimeResponse { unixtime, rfc1123 })
    }
}

/// Exchange availability.
pub struct SystemStatusResponse {
    pub status: String,
    pub timestamp: String,
}

/// What the system-status payload decodes to, when it fits.
pub open spec fn spec_system_status_of(j: Json) -> Option<(Seq<char>, Seq<char>)> {
    match j {
        Json::Obj(f) => match (s_str(f, "status"@), s_str(f, "timestamp"@)) {
            (Some(st), Some(ts)) => Some((st, ts)),
            _ => None,
        },
        _ => None,
    }
}

impl SystemStatusResponse {
    /// Decode the payload of a system-status response.
    pub fn from_json(v: &JsonValue) -> (r: Option<SystemStatusResponse>)
        ensures
            match r {
                Some(st) => spec_system_status_of(v@) == Some((st.status@, st.timestamp@)),
                None => spec_system_status_of(v@) is None,
            },
    {
        let f = match v {
            JsonValue::Obj(f) => f,
            _ => {
                return None;
            },
        };
        let status = match crate::json::obj_get(f, "status") {
            Some(JsonValue::Str(s)) => s.clone(),
            _ => {
                return None;
            },
        };
        let timestamp = match crate::json::obj_get(f, "timestamp") {
            Some(JsonValue::Str(s)) => s.clone(),
            _ => {
                return None;
            },
        };
        Some(SystemStatusResponse { status, timestamp })
    }
}

/// One asset's reference data.
pub struct AssetInfo {
    pub aclass: String,
    pub altname: String,
    pub decimals: u32,
    pub display_decimals: u32,
}

/// Asset reference data, keyed by asset code, in wire order.
pub struct AssetInfoResponse {
    pub assets: Vec<(String, AssetInfo)>,
}

/// Level-1 quotes for one pair.
pub struct TickerInfo {
    /// Ask: price, whole-lot volume, lot volume.
    pub a: [String; 3],
    /// Bid: price, whole-lot volume, lot volume.
    pub b: [String; 3],
    /// Last trade: price, lot volume.
    pub c: [String; 2],
    /// Volume today and over the last day.
    pub v: [String; 2],
    /// Volume-weighted average price today and over the last day.
    pub p: [String; 2],
    /// Number of trades today and over the last day.
    pub t: [u64; 2],
    /// Low today and over the last day.
    pub l: [String; 2],
    /// High today and over the last day.
    pub h: [String; 2],
    /// Today's opening price.
    pub o: String,
}

/// Level-1 quotes, keyed by pair, in wire order.
pub struct TickerResponse {
    pub tickers: Vec<(String, TickerInfo)>,
}

/// Candle series, keyed by pair, with the shape left raw.
pub struct OhlcDataResponse {
    pub result: Vec<(String, JsonValue)>,
}

/// One side-by-side book snapshot.
pub struct OrderBookData {
    pub asks: Vec<[String; 3]>,
    pub bids: Vec<[String; 3]>,
}

/// Book snapshots, keyed by pair, in wire order.
pub struct OrderBookResponse {
    pub orderbook: Vec<(String, OrderBookData)>,
}

/// Recent trades, keyed by pair, with the shape left raw.
pub struct TradesResponse {
    pub trades: Vec<(String, JsonValue)>,
}

/// Recent spreads, keyed by pair, with the shape left raw.
pub struct SpreadsResponse {
    pub spreads: Vec<(String, JsonValue)>,
}

/// Account balances, keyed by asset, in wire order.
pub struct AccountBalanceResponse {
    pub balances: Vec<(String, String)>,
}

/// Extended account balances, keyed by asset, in wire order.
pub struct ExtendedBalanceResponse {
    pub balances: Vec<(String, String)>,
}

/// Margin-account summary.
pub struct TradeBalanceResponse {
    /// Equivalent balance: all currencies combined.
    pub eb: String,
    /// Trade balance: equity currencies combined.
    pub tb: String,
    /// Margin amount of open positions.
    pub m: String,
    /// Unrealised net result of open positions.
    pub n: String,
    /// Cost basis of open positions.
    pub c: String,
    /// Current valuation of open positions.
    pub v: String,
    /// Equity.
    pub e: String,
    /// Free margin.
    pub mf: String,
    /// Margin level, percent.
    pub ml: String,
}

/// Fee tier data for one pair.
pub struct FeeInfo {
    pub fee: String,
    pub minfee: Option<String>,
    pub maxfee: Option<String>,
    pub nextfee: Option<String>,
    pub nextvolume: Option<String>,
    pub tier_volume: Option<String>,
}

/// Trade volume and fee schedule.
pub struct TradeVolumeResponse {
    pub currency: String,
    pub volume: String,
    pub fees: Vec<(String, FeeInfo)>,
    pub fees_maker: Vec<(String, FeeInfo)>,
}

/// Acknowledgment of an export request.
pub struct ExportTradesResponse {
    pub id: String,
    pub descr: Option<String>,
}

/// A retrieved export.
pub struct RetrieveExportResponse {
    pub file: Option<String>,
    pub error: Option<String>,
}

/// Acknowledgment of an export deletion.
pub struct DeleteExportResponse {
    pub id: String,
    pub message: Option<String>,
}

/// Human-readable description of a placed order.
pub struct AddOrderDescr {
    pub order: String,
    pub close: Option<String>,
}

/// Acknowledgment of a new order.
pub struct AddOrderResponse {
    pub descr: AddOrderDescr,
    pub txid: Vec<String>,
}

/// One outcome in a batch placement.
pub struct AddOrderBatchItem {
    pub descr: Option<String>,
    pub txid: Option<Vec<String>>,
    pub error: Option<String>,
}

/// Acknowledgment of a batch placement.
pub struct AddOrderBatchResponse {
    pub results: Vec<AddOrderBatchItem>,
}

/// Acknowledgment of an order amendment.
pub struct AmendOrderResponse {
    pub count: u32,
    pub pending: bool,
    pub descr: Option<AddOrderDescr>,
}

/// Acknowledgment of an order edit.
pub struct EditOrderResponse {
    pub count: u32,
    pub pending: bool,
    pub descr: Option<AddOrderDescr>,
}

/// Acknowledgment of an order cancellation.
pub struct CancelOrderResponse {
    pub count: u32,
    pub pending: bool,
}

/// Acknowledgment of cancelling every open order.
pub struct CancelAllOrdersResponse {
    pub count: u32,
}

/// Acknowledgment of a dead-man's-switch arm or disarm.
pub struct CancelAllOrdersAfterResponse {
    pub current_time: Option<String>,
    pub trigger_time: Option<String>,
}

/// Acknowledgment of a batch cancellation.
pub struct CancelOrderBatchResponse {
    pub results: Vec<CancelOrderResponse>,
}

/// A short-lived token for the streaming interface.
pub struct GetWebSocketsTokenResponse {
    pub token: String,
    pub expires: u64,
}

/// One deposit method.
pub struct DepositMethod {
    pub method: String,
    pub limit: bool,
    pub fee: String,
    pub gen_address: bool,
}

/// Available deposit methods.
pub struct DepositMethodsResponse(pub Vec<DepositMethod>);

/// One deposit address.
pub struct DepositAddressItem {
    pub address: String,
    pub expiretm: Option<String>,
    pub new: Option<bool>,
    pub qr_code: Option<String>,
}

/// Deposit addresses on file.
pub struct DepositAddressesResponse(pub Vec<DepositAddressItem>);

/// One deposit's progress.
pub struct DepositStatusItem {
    pub status: String,
    pub txid: Option<String>,
    pub address: Option<String>,
    pub amount: String,
    pub fee: Option<String>,
    pub time: u64,
}

/// Recent deposits.
pub struct DepositStatusResponse(pub Vec<DepositStatusItem>);

/// One withdrawal method.
pub struct WithdrawalMethod {
    pub method: String,
    pub limit: bool,
    pub fee: String,
    pub gen_address: bool,
}

/// Available withdrawal methods.
pub struct WithdrawalMethodsResponse(pub Vec<WithdrawalMethod>);

/// One withdrawal address.
pub struct WithdrawalAddressItem {
    pub address: String,
    pub new: Option<bool>,
    pub name: Option<String>,
    pub fee: Option<String>,
}

/// Withdrawal addresses on file.
pub struct WithdrawalAddressesResponse(pub Vec<WithdrawalAddressItem>);

/// Limits and fee for a prospective withdrawal.
pub struct WithdrawalInformationResponse {
    pub method: String,
    pub limit: String,
    pub amount: String,
    pub fee: String,
}

/// Acknowledgment of a withdrawal request.
pub struct WithdrawFundsResponse {
    pub refid: String,
}

/// One withdrawal's progress.
pub struct WithdrawalStatusItem {
    pub method: String,
    pub aclass: Option<String>,
    pub asset: String,
    pub refid: Option<String>,
    pub txid: String,
    pub info: Option<String>,
    pub amount: String,
    pub status: String,
    pub fee: String,
    pub time: u64,
}

/// Recent withdrawals.
pub struct WithdrawStatusResponse(pub Vec<WithdrawalStatusItem>);

/// Acknowledgment of a withdrawal cancellation.
pub struct WithdrawCancelResponse {
    pub refid: Option<String>,
    pub result: bool,
}

/// Acknowledgment of a wallet transfer.
pub struct WalletTransferResponse {
    pub refid: Option<String>,
    pub result: Option<String>,
}

/// Acknowledgment of subaccount creation.
pub struct CreateSubaccountResponse {
    pub id: String,
    pub name: Option<String>,
}

/// Acknowledgment of a transfer between accounts.
pub struct AccountTransferResponse {
    pub refid: Option<String>,
    pub status: Option<String>,
    pub txid: Option<String>,
}

/// Acknowledgment of allocating funds to a strategy.
pub struct AllocateEarnFundsResponse {
    pub txid: String,
    pub asset: String,
    pub amount: String,
    pub method: String,
}

/// Acknowledgment of deallocating funds from a strategy.
pub struct DeallocateEarnFundsResponse {
    pub txid: String,
    pub asset: String,
    pub amount: String,
    pub method: String,
}

/// One allocation's progress.
pub struct StakeStatusItem {
    pub txid: String,
    pub asset: String,
    pub amount: String,
    pub status: String,
}

/// Allocation progress.
pub struct GetAllocationStatusResponse {
    pub status: Vec<StakeStatusItem>,
}

/// One deallocation's progress.
pub struct UnstakeStatusItem {
    pub txid: String,
    pub asset: String,
    pub amount: String,
    pub status: String,
}

/// Deallocation progress.
pub struct GetDeallocationStatusResponse {
    pub status: Vec<UnstakeStatusItem>,
}

/// One available earn strategy.
pub struct StakingProduct {
    pub asset: String,
    pub title: String,
    pub apy: String,
    pub method: String,
    pub min_amount: String,
    pub max_amount: Option<String>,
    pub lock_time: Option<u64>,
    pub interval: Option<String>,
}

/// Available earn strategies.
pub struct ListEarnStrategiesResponse {
    pub products: Vec<StakingProduct>,
}

/// One past allocation movement.
pub struct StakingTransaction {
    pub txid: String,
    pub asset: String,
    pub amount: String,
    pub method: String,
    pub status: String,
    pub time: u64,
    pub reward: Option<String>,
}

/// Past allocation movements.
pub struct ListEarnAllocationsResponse {
    pub transactions: Vec<StakingTransaction>,
}

} // verus!
