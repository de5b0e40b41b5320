//! Account events of the user-data stream: a closed union of nine event
//! kinds, read from JSON by the member `e`, and the handling each one gets.

use vstd::prelude::*;
use crate::json::{
    Json, array_member, bool_member, get_array, get_bool, get_member, get_opt_str, get_str, get_u32, get_u64,
    json_of_text, member, opt_str_member, parse_json, str_member, text_view, u32_member, u64_member,
};
use crate::text::same_text;

verus! {

/// One account event, told apart by its event-type member.
#[derive(Debug, Clone, PartialEq, Eq)]
pub enum UserDataUpdate {
    ListenKeyExpired(ListenKeyExpiredEvent),
    AccountUpdate(BalancePositionUpdateEvent),
    MarginCallUpdate(MarginCallUpdateEvent),
    OrderTradeUpdate(OrderTradeUpdateEvent),
    TradeLite(TradeLiteUpdateEvent),
    AccountConfigUpdate(AccountConfigUpdateEvent),
    StrategyUpdate(StrategyUpdateEvent),
    GridUpdate(GridUpdateEvent),
    ConditionalOrderTriggerReject(ConditionalOrderTriggerRejectEvent),
}

/// Does `j` read as `v`? The member `e` names the variant.
pub open spec fn decodes_user_data_update(j: Json, v: UserDataUpdate) -> bool {
    match str_member(j, "e"@) {
        Some(tag) => if tag == "LISTEN_KEY_EXPIRED"@ {
            match v {
                UserDataUpdate::ListenKeyExpired(x) => decodes_listen_key_expired_event(j, x),
                _ => false,
            }
        } else if tag == "ACCOUNT_UPDATE"@ {
            match v {
                UserDataUpdate::AccountUpdate(x) => decodes_balance_position_update_event(j, x),
                _ => false,
            }
        } else if tag == "MARGIN_CALL_UPDATE"@ {
            match v {
                UserDataUpdate::MarginCallUpdate(x) => decodes_margin_call_update_event(j, x),
                _ => false,
            }
        } else if tag == "ORDER_TRADE_UPDATE"@ {
            match v {
                UserDataUpdate::OrderTradeUpdate(x) => decodes_order_trade_update_event(j, x),
                _ => false,
            }
        } else if tag == "TRADE_LITE"@ {
            match v {
                UserDataUpdate::TradeLite(x) => decodes_trade_lite_update_event(j, x),
                _ => false,
            }
        } else if tag == "ACCOUNT_CONFIG_UPDATE"@ {
            match v {
                UserDataUpdate::AccountConfigUpdate(x) => decodes_account_config_update_event(j, x),
                _ => false,
            }
        } else if tag == "STRATEGY_UPDATE"@ {
            match v {
                UserDataUpdate::StrategyUpdate(x) => decodes_strategy_update_event(j, x),
                _ => false,
            }
        } else if tag == "GRID_UPDATE"@ {
            match v {
                UserDataUpdate::GridUpdate(x) => decodes_grid_update_event(j, x),
                _ => false,
            }
        } else if tag == "CONDITIONAL_ORDER_TRIGGER_REJECT"@ {
            match v {
                UserDataUpdate::ConditionalOrderTriggerReject(x) => decodes_conditional_order_trigger_reject_event(j, x),
                _ => false,
            }
        } else {
            false
        },
        None => false,
    }
}

/// Reads a `UserDataUpdate` from `j`.
pub fn decode_user_data_update(j: &Json) -> (r: Option<UserDataUpdate>)
    ensures
        match r {
            Some(v) => decodes_user_data_update(*j, v),
            None => forall|v: UserDataUpdate| !#[trigger] decodes_user_data_update(*j, v),
        },
{
    let tag = match get_str(j, "e") {
        Some(t) => t,
        None => return None,
    };
    if same_text(tag.as_str(), "LISTEN_KEY_EXPIRED") {
        match decode_listen_key_expired_event(j) {
            Some(x) => Some(UserDataUpdate::ListenKeyExpired(x)),
            None => None,
        }
    } else if same_text(tag.as_str(), "ACCOUNT_UPDATE") {
        match decode_balance_position_update_event(j) {
            Some(x) => Some(UserDataUpdate::AccountUpdate(x)),
            None => None,
        }
    } else if same_text(tag.as_str(), "MARGIN_CALL_UPDATE") {
        match decode_margin_call_update_event(j) {
            Some(x) => Some(UserDataUpdate::MarginCallUpdate(x)),
            None => None,
        }
    } else if same_text(tag.as_str(), "ORDER_TRADE_UPDATE") {
        match decode_order_trade_update_event(j) {
            Some(x) => Some(UserDataUpdate::OrderTradeUpdate(x)),
            None => None,
        }
    } else if same_text(tag.as_str(), "TRADE_LITE") {
        match decode_trade_lite_update_event(j) {
            Some(x) => Some(UserDataUpdate::TradeLite(x)),
            None => None,
        }
    } else if same_text(tag.as_str(), "ACCOUNT_CONFIG_UPDATE") {
        match decode_account_config_update_event(j) {
            Some(x) => Some(UserDataUpdate::AccountConfigUpdate(x)),
            None => None,
        }
    } else if same_text(tag.as_str(), "STRATEGY_UPDATE") {
        match decode_strategy_update_event(j) {
            Some(x) => Some(UserDataUpdate::StrategyUpdate(x)),
            None => None,
        }
    } else if same_text(tag.as_str(), "GRID_UPDATE") {
        match decode_grid_update_event(j) {
            Some(x) => Some(UserDataUpdate::GridUpdate(x)),
            None => None,
        }
    } else if same_text(tag.as_str(), "CONDITIONAL_ORDER_TRIGGER_REJECT") {
        match decode_conditional_order_trigger_reject_event(j) {
            Some(x) => Some(UserDataUpdate::ConditionalOrderTriggerReject(x)),
            None => None,
        }
    } else {
        None
    }
}

/// The session token has lapsed.
#[derive(Debug, Clone, PartialEq, Eq)]
#[allow(non_snake_case)]
pub struct ListenKeyExpiredEvent {
    pub E: u64,
}

/// Does `j` read as `v`?
pub open spec fn decodes_listen_key_expired_event(j: Json, v: ListenKeyExpiredEvent) -> bool {
    &&& u64_member(j, "E"@) == Some(v.E)
}

/// Reads a `ListenKeyExpiredEvent` from `j`.
pub fn decode_listen_key_expired_event(j: &Json) -> (r: Option<ListenKeyExpiredEvent>)
    ensures
        match r {
            Some(v) => decodes_listen_key_expired_event(*j, v),
            None => forall|v: ListenKeyExpiredEvent| !#[trigger] decodes_listen_key_expired_event(*j, v),
        },
{
    let E = match get_u64(j, "E") {
        Some(x) => x,
        None => return None,
    };
    Some(ListenKeyExpiredEvent {
        E,
    })
}

/// Balance and position changes.
#[derive(Debug, Clone, PartialEq, Eq)]
#[allow(non_snake_case)]
pub struct BalancePositionUpdateEvent {
    pub E: u64,
    pub T: u64,
    pub a: BalancePositionData,
}

/// Does `j` read as `v`?
pub open spec fn decodes_balance_position_update_event(j: Json, v: BalancePositionUpdateEvent) -> bool {
    &&& u64_member(j, "E"@) == Some(v.E)
    &&& u64_member(j, "T"@) == Some(v.T)
    &&& match member(j, "a"@) { Some(m) => decodes_balance_position_data(m, v.a), None => false }
}

/// Reads a `BalancePositionUpdateEvent` from `j`.
pub fn decode_balance_position_update_event(j: &Json) -> (r: Option<BalancePositionUpdateEvent>)
    ensures
        match r {
            Some(v) => decodes_balance_position_update_event(*j, v),
            None => forall|v: BalancePositionUpdateEvent| !#[trigger] decodes_balance_position_update_event(*j, v),
        },
{
    let E = match get_u64(j, "E") {
        Some(x) => x,
        None => return None,
    };
    let T = match get_u64(j, "T") {
        Some(x) => x,
        None => return None,
    };
    let a = match get_member(j, "a") {
        Some(m) => match decode_balance_position_data(m) {
            Some(x) => x,
            None => return None,
        },
        None => return None,
    };
    Some(BalancePositionUpdateEvent {
        E,
        T,
        a,
    })
}

/// A margin call.
#[derive(Debug, Clone, PartialEq, Eq)]
#[allow(non_snake_case)]
pub struct MarginCallUpdateEvent {
    pub E: u64,
    pub cw: String,
    pub p: MarginPositionData,
}

/// Does `j` read as `v`?
pub open spec fn decodes_margin_call_update_event(j: Json, v: MarginCallUpdateEvent) -> bool {
    &&& u64_member(j, "E"@) == Some(v.E)
    &&& str_member(j, "cw"@) == Some(v.cw@)
    &&& match member(j, "p"@) { Some(m) => decodes_margin_position_data(m, v.p), None => false }
}

/// Reads a `MarginCallUpdateEvent` from `j`.
pub fn decode_margin_call_update_event(j: &Json) -> (r: Option<MarginCallUpdateEvent>)
    ensures
        match r {
            Some(v) => decodes_margin_call_update_event(*j, v),
            None => forall|v: MarginCallUpdateEvent| !#[trigger] decodes_margin_call_update_event(*j, v),
        },
{
    let E = match get_u64(j, "E") {
        Some(x) => x,
        None => return None,
    };
    let cw = match get_str(j, "cw") {
        Some(x) => x,
        None => return None,
    };
    let p = match get_member(j, "p") {
        Some(m) => match decode_margin_position_data(m) {
            Some(x) => x,
            None => return None,
        },
        None => return None,
    };
    Some(MarginCallUpdateEvent {
        E,
        cw,
        p,
    })
}

/// An order changed state or traded.
#[derive(Debug, Clone, PartialEq, Eq)]
#[allow(non_snake_case)]
pub struct OrderTradeUpdateEvent {
    pub E: u64,
    pub T: u64,
    pub o: OrderUpdateData,
}

/// Does `j` read as `v`?
pub open spec fn decodes_order_trade_update_event(j: Json, v: OrderTradeUpdateEvent) -> bool {
    &&& u64_member(j, "E"@) == Some(v.E)
    &&& u64_member(j, "T"@) == Some(v.T)
    &&& match member(j, "o"@) { Some(m) => decodes_order_update_data(m, v.o), None => false }
}

/// Reads a `OrderTradeUpdateEvent` from `j`.
pub fn decode_order_trade_update_event(j: &Json) -> (r: Option<OrderTradeUpdateEvent>)
    ensures
        match r {
            Some(v) => decodes_order_trade_update_event(*j, v),
            None => forall|v: OrderTradeUpdateEvent| !#[trigger] decodes_order_trade_update_event(*j, v),
        },
{
    let E = match get_u64(j, "E") {
        Some(x) => x,
        None => return None,
    };
    let T = match get_u64(j, "T") {
        Some(x) => x,
        None => return None,
    };
    let o = match get_member(j, "o") {
        Some(m) => match decode_order_update_data(m) {
            Some(x) => x,
            None => return None,
        },
        None => return None,
    };
    Some(OrderTradeUpdateEvent {
        E,
        T,
        o,
    })
}

/// A short trade report.
#[derive(Debug, Clone, PartialEq, Eq)]
#[allow(non_snake_case)]
pub struct TradeLiteUpdateEvent {
    pub E: u64,
    pub T: u64,
    pub s: String,
    pub q: String,
    pub p: String,
    pub m: bool,
    pub c: String,
    pub S: String,
    pub L: String,
    pub l: String,
    pub t: u64,
    pub i: u64,
}

/// Does `j` read as `v`?
pub open spec fn decodes_trade_lite_update_event(j: Json, v: TradeLiteUpdateEvent) -> bool {
    &&& u64_member(j, "E"@) == Some(v.E)
    &&& u64_member(j, "T"@) == Some(v.T)
    &&& str_member(j, "s"@) == Some(v.s@)
    &&& str_member(j, "q"@) == Some(v.q@)
    &&& str_member(j, "p"@) == Some(v.p@)
    &&& bool_member(j, "m"@) == Some(v.m)
    &&& str_member(j, "c"@) == Some(v.c@)
    &&& str_member(j, "S"@) == Some(v.S@)
    &&& str_member(j, "L"@) == Some(v.L@)
    &&& str_member(j, "l"@) == Some(v.l@)
    &&& u64_member(j, "t"@) == Some(v.t)
    &&& u64_member(j, "i"@) == Some(v.i)
}

/// Reads a `TradeLiteUpdateEvent` from `j`.
pub fn decode_trade_lite_update_event(j: &Json) -> (r: Option<TradeLiteUpdateEvent>)
    ensures
        match r {
            Some(v) => decodes_trade_lite_update_event(*j, v),
            None => forall|v: TradeLiteUpdateEvent| !#[trigger] decodes_trade_lite_update_event(*j, v),
        },
{
    let E = match get_u64(j, "E") {
        Some(x) => x,
        None => return None,
    };
    let T = match get_u64(j, "T") {
        Some(x) => x,
        None => return None,
    };
    let s = match get_str(j, "s") {
        Some(x) => x,
        None => return None,
    };
    let q = match get_str(j, "q") {
        Some(x) => x,
        None => return None,
    };
    let p = match get_str(j, "p") {
        Some(x) => x,
        None => return None,
    };
    let m = match get_bool(j, "m") {
        Some(x) => x,
        None => return None,
    };
    let c = match get_str(j, "c") {
        Some(x) => x,
        None => return None,
    };
    let S = match get_str(j, "S") {
        Some(x) => x,
        None => return None,
    };
    let L = match get_str(j, "L") {
        Some(x) => x,
        None => return None,
    };
    let l = match get_str(j, "l") {
        Some(x) => x,
        None => return None,
    };
    let t = match get_u64(j, "t") {
        Some(x) => x,
        None => return None,
    };
    let i = match get_u64(j, "i") {
        Some(x) => x,
        None => return None,
    };
    Some(TradeLiteUpdateEvent {
        E,
        T,
        s,
        q,
        p,
        m,
        c,
        S,
        L,
        l,
        t,
        i,
    })
}

/// A change of account configuration; the configuration members sit beside the event times.
#[derive(Debug, Clone, PartialEq, Eq)]
#[allow(non_snake_case)]
pub struct AccountConfigUpdateEvent {
    pub E: u64,
    pub T: u64,
    pub account_config: AccountConfig,
}

/// Does `j` read as `v`?
pub open spec fn decodes_account_config_update_event(j: Json, v: AccountConfigUpdateEvent) -> bool {
    &&& u64_member(j, "E"@) == Some(v.E)
    &&& u64_member(j, "T"@) == Some(v.T)
    &&& decodes_account_config(j, v.account_config)
}

/// Reads a `AccountConfigUpdateEvent` from `j`.
pub fn decode_account_config_update_event(j: &Json) -> (r: Option<AccountConfigUpdateEvent>)
    ensures
        match r {
            Some(v) => decodes_account_config_update_event(*j, v),
            None => forall|v: AccountConfigUpdateEvent| !#[trigger] decodes_account_config_update_event(*j, v),
        },
{
    let E = match get_u64(j, "E") {
        Some(x) => x,
        None => return None,
    };
    let T = match get_u64(j, "T") {
        Some(x) => x,
        None => return None,
    };
    let account_config = match decode_account_config(j) {
        Some(x) => x,
        None => return None,
    };
    Some(AccountConfigUpdateEvent {
        E,
        T,
        account_config,
    })
}

/// A strategy changed state.
#[derive(Debug, Clone, PartialEq, Eq)]
#[allow(non_snake_case)]
pub struct StrategyUpdateEvent {
    pub T: u64,
    pub E: u64,
    pub su: StrategyDetails,
}

/// Does `j` read as `v`?
pub open spec fn decodes_strategy_update_event(j: Json, v: StrategyUpdateEvent) -> bool {
    &&& u64_member(j, "T"@) == Some(v.T)
    &&& u64_member(j, "E"@) == Some(v.E)
    &&& match member(j, "su"@) { Some(m) => decodes_strategy_details(m, v.su), None => false }
}

/// Reads a `StrategyUpdateEvent` from `j`.
pub fn decode_strategy_update_event(j: &Json) -> (r: Option<StrategyUpdateEvent>)
    ensures
        match r {
            Some(v) => decodes_strategy_update_event(*j, v),
            None => forall|v: StrategyUpdateEvent| !#[trigger] decodes_strategy_update_event(*j, v),
        },
{
    let T = match get_u64(j, "T") {
        Some(x) => x,
        None => return None,
    };
    let E = match get_u64(j, "E") {
        Some(x) => x,
        None => return None,
    };
    let su = match get_member(j, "su") {
        Some(m) => match decode_strategy_details(m) {
            Some(x) => x,
            None => return None,
        },
        None => return None,
    };
    Some(StrategyUpdateEvent {
        T,
        E,
        su,
    })
}

/// A grid strategy changed state.
#[derive(Debug, Clone, PartialEq, Eq)]
#[allow(non_snake_case)]
pub struct GridUpdateEvent {
    pub T: u64,
    pub E: u64,
    pub gu: GridUpdateDetails,
}

/// Does `j` read as `v`?
pub open spec fn decodes_grid_update_event(j: Json, v: GridUpdateEvent) -> bool {
    &&& u64_member(j, "T"@) == Some(v.T)
    &&& u64_member(j, "E"@) == Some(v.E)
    &&& match member(j, "gu"@) { Some(m) => decodes_grid_update_details(m, v.gu), None => false }
}

/// Reads a `GridUpdateEvent` from `j`.
pub fn decode_grid_update_event(j: &Json) -> (r: Option<GridUpdateEvent>)
    ensures
        match r {
            Some(v) => decodes_grid_update_event(*j, v),
            None => forall|v: GridUpdateEvent| !#[trigger] decodes_grid_update_event(*j, v),
        },
{
    let T = match get_u64(j, "T") {
        Some(x) => x,
        None => return None,
    };
    let E = match get_u64(j, "E") {
        Some(x) => x,
        None => return None,
    };
    let gu = match get_member(j, "gu") {
        Some(m) => match decode_grid_update_details(m) {
            Some(x) => x,
            None => return None,
        },
        None => return None,
    };
    Some(GridUpdateEvent {
        T,
        E,
        gu,
    })
}

/// A triggered conditional order was rejected.
#[derive(Debug, Clone, PartialEq, Eq)]
#[allow(non_snake_case)]
pub struct ConditionalOrderTriggerRejectEvent {
    pub E: u64,
    pub T: u64,
    pub or: OrderRejectDetails,
}

/// Does `j` read as `v`?
pub open spec fn decodes_conditional_order_trigger_reject_event(j: Json, v: ConditionalOrderTriggerRejectEvent) -> bool {
    &&& u64_member(j, "E"@) == Some(v.E)
    &&& u64_member(j, "T"@) == Some(v.T)
    &&& match member(j, "or"@) { Some(m) => decodes_order_reject_details(m, v.or), None => false }
}

/// Reads a `ConditionalOrderTriggerRejectEvent` from `j`.
pub fn decode_conditional_order_trigger_reject_event(j: &Json) -> (r: Option<ConditionalOrderTriggerRejectEvent>)
    ensures
        match r {
            Some(v) => decodes_conditional_order_trigger_reject_event(*j, v),
            None => forall|v: ConditionalOrderTriggerRejectEvent| !#[trigger] decodes_conditional_order_trigger_reject_event(*j, v),
        },
{
    let E = match get_u64(j, "E") {
        Some(x) => x,
        None => return None,
    };
    let T = match get_u64(j, "T") {
        Some(x) => x,
        None => return None,
    };
    let or = match get_member(j, "or") {
        Some(m) => match decode_order_reject_details(m) {
            Some(x) => x,
            None => return None,
        },
        None => return None,
    };
    Some(ConditionalOrderTriggerRejectEvent {
        E,
        T,
        or,
    })
}

/// The reason of an account update, and what changed.
#[derive(Debug, Clone, PartialEq, Eq)]
#[allow(non_snake_case)]
pub struct BalancePositionData {
    pub m: String,
    pub B: Vec<Balance>,
    pub P: Vec<Position>,
}

/// Does `j` read as `v`?
pub open spec fn decodes_balance_position_data(j: Json, v: BalancePositionData) -> bool {
    &&& str_member(j, "m"@) == Some(v.m@)
    &&& match array_member(j, "B"@) { Some(a) => decodes_balance_list(a, v.B@), None => false }
    &&& match array_member(j, "P"@) { Some(a) => decodes_position_list(a, v.P@), None => false }
}

/// Reads a `BalancePositionData` from `j`.
pub fn decode_balance_position_data(j: &Json) -> (r: Option<BalancePositionData>)
    ensures
        match r {
            Some(v) => decodes_balance_position_data(*j, v),
            None => forall|v: BalancePositionData| !#[trigger] decodes_balance_position_data(*j, v),
        },
{
    let m = match get_str(j, "m") {
        Some(x) => x,
        None => return None,
    };
    let B = match get_array(j, "B") {
        Some(a) => match decode_balance_list(a) {
            Some(x) => x,
            None => return None,
        },
        None => return None,
    };
    let P = match get_array(j, "P") {
        Some(a) => match decode_position_list(a) {
            Some(x) => x,
            None => return None,
        },
        None => return None,
    };
    Some(BalancePositionData {
        m,
        B,
        P,
    })
}

/// The balance of one asset.
#[derive(Debug, Clone, PartialEq, Eq)]
#[allow(non_snake_case)]
pub struct Balance {
    pub a: String,
    pub wb: String,
    pub cw: String,
    pub bc: String,
}

/// Does `j` read as `v`?
pub open spec fn decodes_balance(j: Json, v: Balance) -> bool {
    &&& str_member(j, "a"@) == Some(v.a@)
    &&& str_member(j, "wb"@) == Some(v.wb@)
    &&& str_member(j, "cw"@) == Some(v.cw@)
    &&& str_member(j, "bc"@) == Some(v.bc@)
}

/// Reads a `Balance` from `j`.
pub fn decode_balance(j: &Json) -> (r: Option<Balance>)
    ensures
        match r {
            Some(v) => decodes_balance(*j, v),
            None => forall|v: Balance| !#[trigger] decodes_balance(*j, v),
        },
{
    let a = match get_str(j, "a") {
        Some(x) => x,
        None => return None,
    };
    let wb = match get_str(j, "wb") {
        Some(x) => x,
        None => return None,
    };
    let cw = match get_str(j, "cw") {
        Some(x) => x,
        None => return None,
    };
    let bc = match get_str(j, "bc") {
        Some(x) => x,
        None => return None,
    };
    Some(Balance {
        a,
        wb,
        cw,
        bc,
    })
}

pub open spec fn decodes_balance_list(js: Seq<Json>, vs: Seq<Balance>) -> bool {
    &&& js.len() == vs.len()
    &&& forall|i: int| 0 <= i < js.len() ==> #[trigger] decodes_balance(js[i], vs[i])
}

fn decode_balance_list(js: &Vec<Json>) -> (r: Option<Vec<Balance>>)
    ensures
        match r {
            Some(v) => decodes_balance_list(js@, v@),
            None => forall|vs: Seq<Balance>| !#[trigger] decodes_balance_list(js@, vs),
        },
{
    let mut out: Vec<Balance> = Vec::new();
    let mut i: usize = 0;
    while i < js.len()
        invariant
            i <= js@.len(),
            out@.len() == i,
            forall|k: int| 0 <= k < i ==> #[trigger] decodes_balance(js@[k], out@[k]),
        decreases js@.len() - i,
    {
        match decode_balance(&js[i]) {
            Some(v) => {
                out.push(v);
            },
            None => {
                proof {
                    assert forall|vs: Seq<Balance>| !#[trigger] decodes_balance_list(js@, vs) by {
                        if vs.len() == js@.len() {
                            assert(!decodes_balance(js@[i as int], vs[i as int]));
                        }
                    }
                }
                return None;
            },
        }
        i = i + 1;
    }
    Some(out)
}

/// One position.
#[derive(Debug, Clone, PartialEq, Eq)]
#[allow(non_snake_case)]
pub struct Position {
    pub s: String,
    pub pa: String,
    pub ep: String,
    pub bep: String,
    pub cr: String,
    pub up: String,
    pub mt: String,
    pub iw: String,
    pub ps: String,
}

/// Does `j` read as `v`?
pub open spec fn decodes_position(j: Json, v: Position) -> bool {
    &&& str_member(j, "s"@) == Some(v.s@)
    &&& str_member(j, "pa"@) == Some(v.pa@)
    &&& str_member(j, "ep"@) == Some(v.ep@)
    &&& str_member(j, "bep"@) == Some(v.bep@)
    &&& str_member(j, "cr"@) == Some(v.cr@)
    &&& str_member(j, "up"@) == Some(v.up@)
    &&& str_member(j, "mt"@) == Some(v.mt@)
    &&& str_member(j, "iw"@) == Some(v.iw@)
    &&& str_member(j, "ps"@) == Some(v.ps@)
}

/// Reads a `Position` from `j`.
pub fn decode_position(j: &Json) -> (r: Option<Position>)
    ensures
        match r {
            Some(v) => decodes_position(*j, v),
            None => forall|v: Position| !#[trigger] decodes_position(*j, v),
        },
{
    let s = match get_str(j, "s") {
        Some(x) => x,
        None => return None,
    };
    let pa = match get_str(j, "pa") {
        Some(x) => x,
        None => return None,
    };
    let ep = match get_str(j, "ep") {
        Some(x) => x,
        None => return None,
    };
    let bep = match get_str(j, "bep") {
        Some(x) => x,
        None => return None,
    };
    let cr = match get_str(j, "cr") {
        Some(x) => x,
        None => return None,
    };
    let up = match get_str(j, "up") {
        Some(x) => x,
        None => return None,
    };
    let mt = match get_str(j, "mt") {
        Some(x) => x,
        None => return None,
    };
    let iw = match get_str(j, "iw") {
        Some(x) => x,
        None => return None,
    };
    let ps = match get_str(j, "ps") {
        Some(x) => x,
        None => return None,
    };
    Some(Position {
        s,
        pa,
        ep,
        bep,
        cr,
        up,
        mt,
        iw,
        ps,
    })
}

pub open spec fn decodes_position_list(js: Seq<Json>, vs: Seq<Position>) -> bool {
    &&& js.len() == vs.len()
    &&& forall|i: int| 0 <= i < js.len() ==> #[trigger] decodes_position(js[i], vs[i])
}

fn decode_position_list(js: &Vec<Json>) -> (r: Option<Vec<Position>>)
    ensures
        match r {
            Some(v) => decodes_position_list(js@, v@),
            None => forall|vs: Seq<Position>| !#[trigger] decodes_position_list(js@, vs),
        },
{
    let mut out: Vec<Position> = Vec::new();
    let mut i: usize = 0;
    while i < js.len()
        invariant
            i <= js@.len(),
            out@.len() == i,
            forall|k: int| 0 <= k < i ==> #[trigger] decodes_position(js@[k], out@[k]),
        decreases js@.len() - i,
    {
        match decode_position(&js[i]) {
            Some(v) => {
                out.push(v);
            },
            None => {
                proof {
                    assert forall|vs: Seq<Position>| !#[trigger] decodes_position_list(js@, vs) by {
                        if vs.len() == js@.len() {
                            assert(!decodes_position(js@[i as int], vs[i as int]));
                        }
                    }
                }
                return None;
            },
        }
        i = i + 1;
    }
    Some(out)
}

/// The position behind a margin call.
#[derive(Debug, Clone, PartialEq, Eq)]
#[allow(non_snake_case)]
pub struct MarginPositionData {
    pub s: String,
    pub ps: String,
    pub pa: String,
    pub mt: String,
    pub iw: String,
    pub mp: String,
    pub up: String,
    pub mm: String,
}

/// Does `j` read as `v`?
pub open spec fn decodes_margin_position_data(j: Json, v: MarginPositionData) -> bool {
    &&& str_member(j, "s"@) == Some(v.s@)
    &&& str_member(j, "ps"@) == Some(v.ps@)
    &&& str_member(j, "pa"@) == Some(v.pa@)
    &&& str_member(j, "mt"@) == Some(v.mt@)
    &&& str_member(j, "iw"@) == Some(v.iw@)
    &&& str_member(j, "mp"@) == Some(v.mp@)
    &&& str_member(j, "up"@) == Some(v.up@)
    &&& str_member(j, "mm"@) == Some(v.mm@)
}

/// Reads a `MarginPositionData` from `j`.
pub fn decode_margin_position_data(j: &Json) -> (r: Option<MarginPositionData>)
    ensures
        match r {
            Some(v) => decodes_margin_position_data(*j, v),
            None => forall|v: MarginPositionData| !#[trigger] decodes_margin_position_data(*j, v),
        },
{
    let s = match get_str(j, "s") {
        Some(x) => x,
        None => return None,
    };
    let ps = match get_str(j, "ps") {
        Some(x) => x,
        None => return None,
    };
    let pa = match get_str(j, "pa") {
        Some(x) => x,
        None => return None,
    };
    let mt = match get_str(j, "mt") {
        Some(x) => x,
        None => return None,
    };
    let iw = match get_str(j, "iw") {
        Some(x) => x,
        None => return None,
    };
    let mp = match get_str(j, "mp") {
        Some(x) => x,
        None => return None,
    };
    let up = match get_str(j, "up") {
        Some(x) => x,
        None => return None,
    };
    let mm = match get_str(j, "mm") {
        Some(x) => x,
        None => return None,
    };
    Some(MarginPositionData {
        s,
        ps,
        pa,
        mt,
        iw,
        mp,
        up,
        mm,
    })
}

/// The state of one order.
#[derive(Debug, Clone, PartialEq, Eq)]
#[allow(non_snake_case)]
pub struct OrderUpdateData {
    pub s: String,
    pub c: String,
    pub S: String,
    pub o: String,
    pub f: String,
    pub q: String,
    pub p: String,
    pub ap: String,
    pub sp: String,
    pub x: String,
    pub X: String,
    pub i: u64,
    pub l: String,
    pub z: String,
    pub L: String,
    pub N: String,
    pub n: String,
    pub T: u64,
    pub t: u64,
    pub b: String,
    pub a: String,
    pub m: bool,
    pub R: bool,
    pub wt: String,
    pub ot: String,
    pub ps: String,
    pub cp: bool,
    pub AP: Option<String>,
    pub cr: Option<String>,
    pub pP: bool,
    pub si: u64,
    pub ss: u64,
    pub rp: String,
    pub V: String,
    pub pm: String,
    pub gtd: u64,
}

/// Does `j` read as `v`?
pub open spec fn decodes_order_update_data(j: Json, v: OrderUpdateData) -> bool {
    &&& str_member(j, "s"@) == Some(v.s@)
    &&& str_member(j, "c"@) == Some(v.c@)
    &&& str_member(j, "S"@) == Some(v.S@)
    &&& str_member(j, "o"@) == Some(v.o@)
    &&& str_member(j, "f"@) == Some(v.f@)
    &&& str_member(j, "q"@) == Some(v.q@)
    &&& str_member(j, "p"@) == Some(v.p@)
    &&& str_member(j, "ap"@) == Some(v.ap@)
    &&& str_member(j, "sp"@) == Some(v.sp@)
    &&& str_member(j, "x"@) == Some(v.x@)
    &&& str_member(j, "X"@) == Some(v.X@)
    &&& u64_member(j, "i"@) == Some(v.i)
    &&& str_member(j, "l"@) == Some(v.l@)
    &&& str_member(j, "z"@) == Some(v.z@)
    &&& str_member(j, "L"@) == Some(v.L@)
    &&& str_member(j, "N"@) == Some(v.N@)
    &&& str_member(j, "n"@) == Some(v.n@)
    &&& u64_member(j, "T"@) == Some(v.T)
    &&& u64_member(j, "t"@) == Some(v.t)
    &&& str_member(j, "b"@) == Some(v.b@)
    &&& str_member(j, "a"@) == Some(v.a@)
    &&& bool_member(j, "m"@) == Some(v.m)
    &&& bool_member(j, "R"@) == Some(v.R)
    &&& str_member(j, "wt"@) == Some(v.wt@)
    &&& str_member(j, "ot"@) == Some(v.ot@)
    &&& str_member(j, "ps"@) == Some(v.ps@)
    &&& bool_member(j, "cp"@) == Some(v.cp)
    &&& opt_str_member(j, "AP"@) == Some(text_view(v.AP))
    &&& opt_str_member(j, "cr"@) == Some(text_view(v.cr))
    &&& bool_member(j, "pP"@) == Some(v.pP)
    &&& u64_member(j, "si"@) == Some(v.si)
    &&& u64_member(j, "ss"@) == Some(v.ss)
    &&& str_member(j, "rp"@) == Some(v.rp@)
    &&& str_member(j, "V"@) == Some(v.V@)
    &&& str_member(j, "pm"@) == Some(v.pm@)
    &&& u64_member(j, "gtd"@) == Some(v.gtd)
}

/// Reads a `OrderUpdateData` from `j`.
pub fn decode_order_update_data(j: &Json) -> (r: Option<OrderUpdateData>)
    ensures
        match r {
            Some(v) => decodes_order_update_data(*j, v),
            None => forall|v: OrderUpdateData| !#[trigger] decodes_order_update_data(*j, v),
        },
{
    let s = match get_str(j, "s") {
        Some(x) => x,
        None => return None,
    };
    let c = match get_str(j, "c") {
        Some(x) => x,
        None => return None,
    };
    let S = match get_str(j, "S") {
        Some(x) => x,
        None => return None,
    };
    let o = match get_str(j, "o") {
        Some(x) => x,
        None => return None,
    };
    let f = match get_str(j, "f") {
        Some(x) => x,
        None => return None,
    };
    let q = match get_str(j, "q") {
        Some(x) => x,
        None => return None,
    };
    let p = match get_str(j, "p") {
        Some(x) => x,
        None => return None,
    };
    let ap = match get_str(j, "ap") {
        Some(x) => x,
        None => return None,
    };
    let sp = match get_str(j, "sp") {
        Some(x) => x,
        None => return None,
    };
    let x = match get_str(j, "x") {
        Some(x) => x,
        None => return None,
    };
    let X = match get_str(j, "X") {
        Some(x) => x,
        None => return None,
    };
    let i = match get_u64(j, "i") {
        Some(x) => x,
        None => return None,
    };
    let l = match get_str(j, "l") {
        Some(x) => x,
        None => return None,
    };
    let z = match get_str(j, "z") {
        Some(x) => x,
        None => return None,
    };
    let L = match get_str(j, "L") {
        Some(x) => x,
        None => return None,
    };
    let N = match get_str(j, "N") {
        Some(x) => x,
        None => return None,
    };
    let n = match get_str(j, "n") {
        Some(x) => x,
        None => return None,
    };
    let T = match get_u64(j, "T") {
        Some(x) => x,
        None => return None,
    };
    let t = match get_u64(j, "t") {
        Some(x) => x,
        None => return None,
    };
    let b = match get_str(j, "b") {
        Some(x) => x,
        None => return None,
    };
    let a = match get_str(j, "a") {
        Some(x) => x,
        None => return None,
    };
    let m = match get_bool(j, "m") {
        Some(x) => x,
        None => return None,
    };
    let R = match get_bool(j, "R") {
        Some(x) => x,
        None => return None,
    };
    let wt = match get_str(j, "wt") {
        Some(x) => x,
        None => return None,
    };
    let ot = match get_str(j, "ot") {
        Some(x) => x,
        None => return None,
    };
    let ps = match get_str(j, "ps") {
        Some(x) => x,
        None => return None,
    };
    let cp = match get_bool(j, "cp") {
        Some(x) => x,
        None => return None,
    };
    let AP = match get_opt_str(j, "AP") {
        Some(x) => x,
        None => return None,
    };
    let cr = match get_opt_str(j, "cr") {
        Some(x) => x,
        None => return None,
    };
    let pP = match get_bool(j, "pP") {
        Some(x) => x,
        None => return None,
    };
    let si = match get_u64(j, "si") {
        Some(x) => x,
        None => return None,
    };
    let ss = match get_u64(j, "ss") {
        Some(x) => x,
        None => return None,
    };
    let rp = match get_str(j, "rp") {
        Some(x) => x,
        None => return None,
    };
    let V = match get_str(j, "V") {
        Some(x) => x,
        None => return None,
    };
    let pm = match get_str(j, "pm") {
        Some(x) => x,
        None => return None,
    };
    let gtd = match get_u64(j, "gtd") {
        Some(x) => x,
        None => return None,
    };
    Some(OrderUpdateData {
        s,
        c,
        S,
        o,
        f,
        q,
        p,
        ap,
        sp,
        x,
        X,
        i,
        l,
        z,
        L,
        N,
        n,
        T,
        t,
        b,
        a,
        m,
        R,
        wt,
        ot,
        ps,
        cp,
        AP,
        cr,
        pP,
        si,
        ss,
        rp,
        V,
        pm,
        gtd,
    })
}

/// The configuration that changed, told apart by its shape alone: a
/// leverage change when the members read as one, else a multi-assets mode.
#[derive(Debug, Clone, PartialEq, Eq)]
pub enum AccountConfig {
    LeverageConfig(AccountLeverage),
    MultiAssetsConfig(AccountMultiAssets),
}

/// Does `j` read as `v`? The leverage shape is tried first.
pub open spec fn decodes_account_config(j: Json, v: AccountConfig) -> bool {
    match v {
        AccountConfig::LeverageConfig(l) => decodes_account_leverage(j, l),
        AccountConfig::MultiAssetsConfig(m) => {
            &&& forall|l: AccountLeverage| !#[trigger] decodes_account_leverage(j, l)
            &&& decodes_account_multi_assets(j, m)
        },
    }
}

/// Reads a `AccountConfig` from `j`.
pub fn decode_account_config(j: &Json) -> (r: Option<AccountConfig>)
    ensures
        match r {
            Some(v) => decodes_account_config(*j, v),
            None => forall|v: AccountConfig| !#[trigger] decodes_account_config(*j, v),
        },
{
    match decode_account_leverage(j) {
        Some(l) => Some(AccountConfig::LeverageConfig(l)),
        None => match decode_account_multi_assets(j) {
            Some(m) => Some(AccountConfig::MultiAssetsConfig(m)),
            None => None,
        },
    }
}

/// A leverage change.
#[derive(Debug, Clone, PartialEq, Eq)]
#[allow(non_snake_case)]
pub struct AccountLeverage {
    pub ac: AccountAssetConfig,
}

/// Does `j` read as `v`?
pub open spec fn decodes_account_leverage(j: Json, v: AccountLeverage) -> bool {
    &&& match member(j, "ac"@) { Some(m) => decodes_account_asset_config(m, v.ac), None => false }
}

/// Reads a `AccountLeverage` from `j`.
pub fn decode_account_leverage(j: &Json) -> (r: Option<AccountLeverage>)
    ensures
        match r {
            Some(v) => decodes_account_leverage(*j, v),
            None => forall|v: AccountLeverage| !#[trigger] decodes_account_leverage(*j, v),
        },
{
    let ac = match get_member(j, "ac") {
        Some(m) => match decode_account_asset_config(m) {
            Some(x) => x,
            None => return None,
        },
        None => return None,
    };
    Some(AccountLeverage {
        ac,
    })
}

/// The symbol and its new leverage.
#[derive(Debug, Clone, PartialEq, Eq)]
#[allow(non_snake_case)]
pub struct AccountAssetConfig {
    pub s: String,
    pub l: u32,
}

/// Does `j` read as `v`?
pub open spec fn decodes_account_asset_config(j: Json, v: AccountAssetConfig) -> bool {
    &&& str_member(j, "s"@) == Some(v.s@)
    &&& u32_member(j, "l"@) == Some(v.l)
}

/// Reads a `AccountAssetConfig` from `j`.
pub fn decode_account_asset_config(j: &Json) -> (r: Option<AccountAssetConfig>)
    ensures
        match r {
            Some(v) => decodes_account_asset_config(*j, v),
            None => forall|v: AccountAssetConfig| !#[trigger] decodes_account_asset_config(*j, v),
        },
{
    let s = match get_str(j, "s") {
        Some(x) => x,
        None => return None,
    };
    let l = match get_u32(j, "l") {
        Some(x) => x,
        None => return None,
    };
    Some(AccountAssetConfig {
        s,
        l,
    })
}

/// A multi-assets mode change.
#[derive(Debug, Clone, PartialEq, Eq)]
#[allow(non_snake_case)]
pub struct AccountMultiAssets {
    pub ai: MultiAssetsInfo,
}

/// Does `j` read as `v`?
pub open spec fn decodes_account_multi_assets(j: Json, v: AccountMultiAssets) -> bool {
    &&& match member(j, "ai"@) { Some(m) => decodes_multi_assets_info(m, v.ai), None => false }
}

/// Reads a `AccountMultiAssets` from `j`.
pub fn decode_account_multi_assets(j: &Json) -> (r: Option<AccountMultiAssets>)
    ensures
        match r {
            Some(v) => decodes_account_multi_assets(*j, v),
            None => forall|v: AccountMultiAssets| !#[trigger] decodes_account_multi_assets(*j, v),
        },
{
    let ai = match get_member(j, "ai") {
        Some(m) => match decode_multi_assets_info(m) {
            Some(x) => x,
            None => return None,
        },
        None => return None,
    };
    Some(AccountMultiAssets {
        ai,
    })
}

/// Whether multi-assets mode is on.
#[derive(Debug, Clone, PartialEq, Eq)]
#[allow(non_snake_case)]
pub struct MultiAssetsInfo {
    pub j: bool,
}

/// Does `j` read as `v`?
pub open spec fn decodes_multi_assets_info(j: Json, v: MultiAssetsInfo) -> bool {
    &&& bool_member(j, "j"@) == Some(v.j)
}

/// Reads a `MultiAssetsInfo` from `j`.
pub fn decode_multi_assets_info(j: &Json) -> (r: Option<MultiAssetsInfo>)
    ensures
        match r {
            Some(v) => decodes_multi_assets_info(*j, v),
            None => forall|v: MultiAssetsInfo| !#[trigger] decodes_multi_assets_info(*j, v),
        },
{
    let j = match get_bool(j, "j") {
        Some(x) => x,
        None => return None,
    };
    Some(MultiAssetsInfo {
        j,
    })
}

/// The state of one strategy.
#[derive(Debug, Clone, PartialEq, Eq)]
#[allow(non_snake_case)]
pub struct StrategyDetails {
    pub si: u64,
    pub st: String,
    pub ss: String,
    pub s: String,
    pub ut: u64,
    pub c: u32,
}

/// Does `j` read as `v`?
pub open spec fn decodes_strategy_details(j: Json, v: StrategyDetails) -> bool {
    &&& u64_member(j, "si"@) == Some(v.si)
    &&& str_member(j, "st"@) == Some(v.st@)
    &&& str_member(j, "ss"@) == Some(v.ss@)
    &&& str_member(j, "s"@) == Some(v.s@)
    &&& u64_member(j, "ut"@) == Some(v.ut)
    &&& u32_member(j, "c"@) == Some(v.c)
}

/// Reads a `StrategyDetails` from `j`.
pub fn decode_strategy_details(j: &Json) -> (r: Option<StrategyDetails>)
    ensures
        match r {
            Some(v) => decodes_strategy_details(*j, v),
            None => forall|v: StrategyDetails| !#[trigger] decodes_strategy_details(*j, v),
        },
{
    let si = match get_u64(j, "si") {
        Some(x) => x,
        None => return None,
    };
    let st = match get_str(j, "st") {
        Some(x) => x,
        None => return None,
    };
    let ss = match get_str(j, "ss") {
        Some(x) => x,
        None => return None,
    };
    let s = match get_str(j, "s") {
        Some(x) => x,
        None => return None,
    };
    let ut = match get_u64(j, "ut") {
        Some(x) => x,
        None => return None,
    };
    let c = match get_u32(j, "c") {
        Some(x) => x,
        None => return None,
    };
    Some(StrategyDetails {
        si,
        st,
        ss,
        s,
        ut,
        c,
    })
}

/// The state of one grid strategy.
#[derive(Debug, Clone, PartialEq, Eq)]
#[allow(non_snake_case)]
pub struct GridUpdateDetails {
    pub si: u64,
    pub st: String,
    pub ss: String,
    pub s: String,
    pub r: String,
    pub up: String,
    pub uq: String,
    pub uf: String,
    pub mp: String,
    pub ut: u64,
}

/// Does `j` read as `v`?
pub open spec fn decodes_grid_update_details(j: Json, v: GridUpdateDetails) -> bool {
    &&& u64_member(j, "si"@) == Some(v.si)
    &&& str_member(j, "st"@) == Some(v.st@)
    &&& str_member(j, "ss"@) == Some(v.ss@)
    &&& str_member(j, "s"@) == Some(v.s@)
    &&& str_member(j, "r"@) == Some(v.r@)
    &&& str_member(j, "up"@) == Some(v.up@)
    &&& str_member(j, "uq"@) == Some(v.uq@)
    &&& str_member(j, "uf"@) == Some(v.uf@)
    &&& str_member(j, "mp"@) == Some(v.mp@)
    &&& u64_member(j, "ut"@) == Some(v.ut)
}

/// Reads a `GridUpdateDetails` from `j`.
pub fn decode_grid_update_details(j: &Json) -> (r: Option<GridUpdateDetails>)
    ensures
        match r {
            Some(v) => decodes_grid_update_details(*j, v),
            None => forall|v: GridUpdateDetails| !#[trigger] decodes_grid_update_details(*j, v),
        },
{
    let si = match get_u64(j, "si") {
        Some(x) => x,
        None => return None,
    };
    let st = match get_str(j, "st") {
        Some(x) => x,
        None => return None,
    };
    let ss = match get_str(j, "ss") {
        Some(x) => x,
        None => return None,
    };
    let s = match get_str(j, "s") {
        Some(x) => x,
        None => return None,
    };
    let r = match get_str(j, "r") {
        Some(x) => x,
        None => return None,
    };
    let up = match get_str(j, "up") {
        Some(x) => x,
        None => return None,
    };
    let uq = match get_str(j, "uq") {
        Some(x) => x,
        None => return None,
    };
    let uf = match get_str(j, "uf") {
        Some(x) => x,
        None => return None,
    };
    let mp = match get_str(j, "mp") {
        Some(x) => x,
        None => return None,
    };
    let ut = match get_u64(j, "ut") {
        Some(x) => x,
        None => return None,
    };
    Some(GridUpdateDetails {
        si,
        st,
        ss,
        s,
        r,
        up,
        uq,
        uf,
        mp,
        ut,
    })
}

/// The rejected order and why.
#[derive(Debug, Clone, PartialEq, Eq)]
#[allow(non_snake_case)]
pub struct OrderRejectDetails {
    pub s: String,
    pub i: u64,
    pub r: String,
}

/// Does `j` read as `v`?
pub open spec fn decodes_order_reject_details(j: Json, v: OrderRejectDetails) -> bool {
    &&& str_member(j, "s"@) == Some(v.s@)
    &&& u64_member(j, "i"@) == Some(v.i)
    &&& str_member(j, "r"@) == Some(v.r@)
}

/// Reads a `OrderRejectDetails` from `j`.
pub fn decode_order_reject_details(j: &Json) -> (r: Option<OrderRejectDetails>)
    ensures
        match r {
            Some(v) => decodes_order_reject_details(*j, v),
            None => forall|v: OrderRejectDetails| !#[trigger] decodes_order_reject_details(*j, v),
        },
{
    let s = match get_str(j, "s") {
        Some(x) => x,
        None => return None,
    };
    let i = match get_u64(j, "i") {
        Some(x) => x,
        None => return None,
    };
    let r = match get_str(j, "r") {
        Some(x) => x,
        None => return None,
    };
    Some(OrderRejectDetails {
        s,
        i,
        r,
    })
}

/// Why a frame of the user-data stream was not taken as an event.
#[derive(Debug, Clone, Copy, PartialEq, Eq)]
pub enum DecodeError {
    /// The frame is not JSON.
    NotJson,
    /// The frame is JSON but not one of the known shapes.
    Malformed,
}

/// Reads one user-data frame: the JSON that serde_json finds in `text`, read
/// as a `UserDataUpdate`.
pub fn decode_user_data_text(text: &str) -> (r: Result<UserDataUpdate, DecodeError>)
    ensures
        match json_of_text(text@) {
            None => r == Err::<UserDataUpdate, DecodeError>(DecodeError::NotJson),
            Some(j) => match r {
                Ok(u) => decodes_user_data_update(j, u),
                Err(e) => e == DecodeError::Malformed && forall|u: UserDataUpdate| !#[trigger] decodes_user_data_update(j, u),
            },
        },
{
    match parse_json(text) {
        None => Err(DecodeError::NotJson),
        Some(j) => match decode_user_data_update(&j) {
            Some(u) => Ok(u),
            None => Err(DecodeError::Malformed),
        },
    }
}

/// The handling an event gets: four kinds are handled on their own, the
/// rest by the generic handler.
#[derive(Debug, Clone, Copy, PartialEq, Eq)]
pub enum UpdateHandling {
    OrderTrade,
    KeyExpired,
    AccountConfig,
    TradeLite,
    Generic,
}

pub open spec fn handling_of(u: UserDataUpdate) -> UpdateHandling {
    match u {
        UserDataUpdate::OrderTradeUpdate(_) => UpdateHandling::OrderTrade,
        UserDataUpdate::ListenKeyExpired(_) => UpdateHandling::KeyExpired,
        UserDataUpdate::AccountConfigUpdate(_) => UpdateHandling::AccountConfig,
        UserDataUpdate::TradeLite(_) => UpdateHandling::TradeLite,
        _ => UpdateHandling::Generic,
    }
}

/// Picks the handler of `update`; every event gets one.
pub fn process_update(update: &UserDataUpdate) -> (h: UpdateHandling)
    ensures
        h == handling_of(*update),
{
    match update {
        UserDataUpdate::OrderTradeUpdate(_) => UpdateHandling::OrderTrade,
        UserDataUpdate::ListenKeyExpired(_) => UpdateHandling::KeyExpired,
        UserDataUpdate::AccountConfigUpdate(_) => UpdateHandling::AccountConfig,
        UserDataUpdate::TradeLite(_) => UpdateHandling::TradeLite,
        _ => UpdateHandling::Generic,
    }
}

/// What became of one text frame of the user-data stream.
#[derive(Debug, Clone, PartialEq, Eq)]
pub enum FrameOutcome {
    Dispatched(UpdateHandling),
    Rejected(DecodeError),
}

/// The user-data stream of one session token.
#[derive(Debug, Clone, PartialEq, Eq)]
pub struct UserDataStream {
    pub listen_key: String,
}

pub open spec fn user_stream_prefix() -> Seq<char> {
    "wss://fstream.binance.com/ws/"@
}

impl UserDataStream {
    /// The stream URL: the token as the last path segment.
    pub fn url(&self) -> (u: String)
        ensures
            u@ == user_stream_prefix() + self.listen_key@,
    {
        crate::text::concat("wss://fstream.binance.com/ws/", self.listen_key.as_str())
    }

    /// Decodes one text frame and picks its handler. A frame that does not
    /// decode is rejected on its own; the stream goes on either way.
    pub fn handle_user_data_update(&self, text: &str) -> (r: FrameOutcome)
        ensures
            match json_of_text(text@) {
                None => r == FrameOutcome::Rejected(DecodeError::NotJson),
                Some(j) => match r {
                    FrameOutcome::Dispatched(h) => exists|u: UserDataUpdate|
                        #[trigger] decodes_user_data_update(j, u) && h == handling_of(u),
                    FrameOutcome::Rejected(e) => e == DecodeError::Malformed
                        && forall|u: UserDataUpdate| !#[trigger] decodes_user_data_update(j, u),
                },
            },
    {
        match decode_user_data_text(text) {
            Ok(u) => FrameOutcome::Dispatched(process_update(&u)),
            Err(e) => FrameOutcome::Rejected(e),
        }
    }
}

/// The nine event-type tags that name a variant.
pub open spec fn known_tag(tag: Seq<char>) -> bool {
    ||| tag == "LISTEN_KEY_EXPIRED"@
    ||| tag == "ACCOUNT_UPDATE"@
    ||| tag == "MARGIN_CALL_UPDATE"@
    ||| tag == "ORDER_TRADE_UPDATE"@
    ||| tag == "TRADE_LITE"@
    ||| tag == "ACCOUNT_CONFIG_UPDATE"@
    ||| tag == "STRATEGY_UPDATE"@
    ||| tag == "GRID_UPDATE"@
    ||| tag == "CONDITIONAL_ORDER_TRIGGER_REJECT"@
}

/// A frame whose event type is missing or not one of the nine tags decodes
/// as no event at all.
pub proof fn lemma_unknown_tag_rejected(j: Json)
    requires
        !(str_member(j, "e"@) matches Some(tag) && known_tag(tag)),
    ensures
        forall|u: UserDataUpdate| !#[trigger] decodes_user_data_update(j, u),
{
}

/// Every event reaches a handler, and the four kinds with handling of their
/// own reach theirs.
pub proof fn lemma_dispatch_total(u: UserDataUpdate)
    ensures
        u is OrderTradeUpdate <==> handling_of(u) == UpdateHandling::OrderTrade,
        u is ListenKeyExpired <==> handling_of(u) == UpdateHandling::KeyExpired,
        u is AccountConfigUpdate <==> handling_of(u) == UpdateHandling::AccountConfig,
        u is TradeLite <==> handling_of(u) == UpdateHandling::TradeLite,
{
}

} // verus!
