//! Control-plane payloads: the session token, and the exchange metadata
//! from which the tradable perpetual contracts are picked.

use vstd::prelude::*;
use crate::json::{
    Json, array_member, bool_member, decode_str_list, decodes_str_list, get_array, get_bool, get_member,
    get_opt_u32, get_str, get_u32, get_u64, member, opt_u32_member, str_member, u32_member, u64_member,
};
use crate::text::same_text;

verus! {

/// The token that a session is issued.
#[derive(Debug, Clone, PartialEq, Eq)]
#[allow(non_snake_case)]
pub struct ListenKey {
    pub listenKey: String,
}

/// Does `j` read as `v`?
pub open spec fn decodes_listen_key(j: Json, v: ListenKey) -> bool {
    &&& str_member(j, "listenKey"@) == Some(v.listenKey@)
}

/// Reads a `ListenKey` from `j`.
pub fn decode_listen_key(j: &Json) -> (r: Option<ListenKey>)
    ensures
        match r {
            Some(v) => decodes_listen_key(*j, v),
            None => forall|v: ListenKey| !#[trigger] decodes_listen_key(*j, v),
        },
{
    let listenKey = match get_str(j, "listenKey") {
        Some(x) => x,
        None => return None,
    };
    Some(ListenKey {
        listenKey,
    })
}

/// The exchange metadata.
#[derive(Debug, Clone, PartialEq, Eq)]
#[allow(non_snake_case)]
pub struct ExchangeInfo {
    pub exchangeFilters: Vec<String>,
    pub rateLimits: Vec<RateLimit>,
    pub serverTime: u64,
    pub assets: Vec<Asset>,
    pub symbols: Vec<Symbol>,
    pub timezone: String,
}

/// Does `j` read as `v`?
pub open spec fn decodes_exchange_info(j: Json, v: ExchangeInfo) -> bool {
    &&& match array_member(j, "exchangeFilters"@) { Some(a) => decodes_str_list(a, v.exchangeFilters@), None => false }
    &&& match array_member(j, "rateLimits"@) { Some(a) => decodes_rate_limit_list(a, v.rateLimits@), None => false }
    &&& u64_member(j, "serverTime"@) == Some(v.serverTime)
    &&& match array_member(j, "assets"@) { Some(a) => decodes_asset_list(a, v.assets@), None => false }
    &&& match array_member(j, "symbols"@) { Some(a) => decodes_symbol_list(a, v.symbols@), None => false }
    &&& str_member(j, "timezone"@) == Some(v.timezone@)
}

/// Reads a `ExchangeInfo` from `j`.
pub fn decode_exchange_info(j: &Json) -> (r: Option<ExchangeInfo>)
    ensures
        match r {
            Some(v) => decodes_exchange_info(*j, v),
            None => forall|v: ExchangeInfo| !#[trigger] decodes_exchange_info(*j, v),
        },
{
    let exchangeFilters = match get_array(j, "exchangeFilters") {
        Some(a) => match decode_str_list(a) {
            Some(x) => x,
            None => return None,
        },
        None => return None,
    };
    let rateLimits = match get_array(j, "rateLimits") {
        Some(a) => match decode_rate_limit_list(a) {
            Some(x) => x,
            None => return None,
        },
        None => return None,
    };
    let serverTime = match get_u64(j, "serverTime") {
        Some(x) => x,
        None => return None,
    };
    let assets = match get_array(j, "assets") {
        Some(a) => match decode_asset_list(a) {
            Some(x) => x,
            None => return None,
        },
        None => return None,
    };
    let symbols = match get_array(j, "symbols") {
        Some(a) => match decode_symbol_list(a) {
            Some(x) => x,
            None => return None,
        },
        None => return None,
    };
    let timezone = match get_str(j, "timezone") {
        Some(x) => x,
        None => return None,
    };
    Some(ExchangeInfo {
        exchangeFilters,
        rateLimits,
        serverTime,
        assets,
        symbols,
        timezone,
    })
}

/// One rate limit.
#[derive(Debug, Clone, PartialEq, Eq)]
#[allow(non_snake_case)]
pub struct RateLimit {
    pub interval: String,
    pub intervalNum: u32,
    pub limit: u32,
    pub rateLimitType: String,
}

/// Does `j` read as `v`?
pub open spec fn decodes_rate_limit(j: Json, v: RateLimit) -> bool {
    &&& str_member(j, "interval"@) == Some(v.interval@)
    &&& u32_member(j, "intervalNum"@) == Some(v.intervalNum)
    &&& u32_member(j, "limit"@) == Some(v.limit)
    &&& str_member(j, "rateLimitType"@) == Some(v.rateLimitType@)
}

/// Reads a `RateLimit` from `j`.
pub fn decode_rate_limit(j: &Json) -> (r: Option<RateLimit>)
    ensures
        match r {
            Some(v) => decodes_rate_limit(*j, v),
            None => forall|v: RateLimit| !#[trigger] decodes_rate_limit(*j, v),
        },
{
    let interval = match get_str(j, "interval") {
        Some(x) => x,
        None => return None,
    };
    let intervalNum = match get_u32(j, "intervalNum") {
        Some(x) => x,
        None => return None,
    };
    let limit = match get_u32(j, "limit") {
        Some(x) => x,
        None => return None,
    };
    let rateLimitType = match get_str(j, "rateLimitType") {
        Some(x) => x,
        None => return None,
    };
    Some(RateLimit {
        interval,
        intervalNum,
        limit,
        rateLimitType,
    })
}

pub open spec fn decodes_rate_limit_list(js: Seq<Json>, vs: Seq<RateLimit>) -> bool {
    &&& js.len() == vs.len()
    &&& forall|i: int| 0 <= i < js.len() ==> #[trigger] decodes_rate_limit(js[i], vs[i])
}

fn decode_rate_limit_list(js: &Vec<Json>) -> (r: Option<Vec<RateLimit>>)
    ensures
        match r {
            Some(v) => decodes_rate_limit_list(js@, v@),
            None => forall|vs: Seq<RateLimit>| !#[trigger] decodes_rate_limit_list(js@, vs),
        },
{
    let mut out: Vec<RateLimit> = Vec::new();
    let mut i: usize = 0;
    while i < js.len()
        invariant
            i <= js@.len(),
            out@.len() == i,
            forall|k: int| 0 <= k < i ==> #[trigger] decodes_rate_limit(js@[k], out@[k]),
        decreases js@.len() - i,
    {
        match decode_rate_limit(&js[i]) {
            Some(v) => {
                out.push(v);
            },
            None => {
                proof {
                    assert forall|vs: Seq<RateLimit>| !#[trigger] decodes_rate_limit_list(js@, vs) by {
                        if vs.len() == js@.len() {
                            assert(!decodes_rate_limit(js@[i as int], vs[i as int]));
                        }
                    }
                }
                return None;
            },
        }
        i = i + 1;
    }
    Some(out)
}

/// One margin asset.
#[derive(Debug, Clone, PartialEq, Eq)]
#[allow(non_snake_case)]
pub struct Asset {
    pub asset: String,
    pub marginAvailable: bool,
    pub autoAssetExchange: String,
}

/// Does `j` read as `v`?
pub open spec fn decodes_asset(j: Json, v: Asset) -> bool {
    &&& str_member(j, "asset"@) == Some(v.asset@)
    &&& bool_member(j, "marginAvailable"@) == Some(v.marginAvailable)
    &&& str_member(j, "autoAssetExchange"@) == Some(v.autoAssetExchange@)
}

/// Reads a `Asset` from `j`.
pub fn decode_asset(j: &Json) -> (r: Option<Asset>)
    ensures
        match r {
            Some(v) => decodes_asset(*j, v),
            None => forall|v: Asset| !#[trigger] decodes_asset(*j, v),
        },
{
    let asset = match get_str(j, "asset") {
        Some(x) => x,
        None => return None,
    };
    let marginAvailable = match get_bool(j, "marginAvailable") {
        Some(x) => x,
        None => return None,
    };
    let autoAssetExchange = match get_str(j, "autoAssetExchange") {
        Some(x) => x,
        None => return None,
    };
    Some(Asset {
        asset,
        marginAvailable,
        autoAssetExchange,
    })
}

pub open spec fn decodes_asset_list(js: Seq<Json>, vs: Seq<Asset>) -> bool {
    &&& js.len() == vs.len()
    &&& forall|i: int| 0 <= i < js.len() ==> #[trigger] decodes_asset(js[i], vs[i])
}

fn decode_asset_list(js: &Vec<Json>) -> (r: Option<Vec<Asset>>)
    ensures
        match r {
            Some(v) => decodes_asset_list(js@, v@),
            None => forall|vs: Seq<Asset>| !#[trigger] decodes_asset_list(js@, vs),
        },
{
    let mut out: Vec<Asset> = Vec::new();
    let mut i: usize = 0;
    while i < js.len()
        invariant
            i <= js@.len(),
            out@.len() == i,
            forall|k: int| 0 <= k < i ==> #[trigger] decodes_asset(js@[k], out@[k]),
        decreases js@.len() - i,
    {
        match decode_asset(&js[i]) {
            Some(v) => {
                out.push(v);
            },
            None => {
                proof {
                    assert forall|vs: Seq<Asset>| !#[trigger] decodes_asset_list(js@, vs) by {
                        if vs.len() == js@.len() {
                            assert(!decodes_asset(js@[i as int], vs[i as int]));
                        }
                    }
                }
                return None;
            },
        }
        i = i + 1;
    }
    Some(out)
}

/// One tradable contract.
#[derive(Debug, Clone, PartialEq, Eq)]
#[allow(non_snake_case)]
pub struct Symbol {
    pub symbol: String,
    pub pair: String,
    pub contractType: String,
    pub deliveryDate: u64,
    pub onboardDate: u64,
    pub status: String,
    pub maintMarginPercent: String,
    pub requiredMarginPercent: String,
    pub baseAsset: String,
    pub quoteAsset: String,
    pub marginAsset: String,
    pub pricePrecision: u32,
    pub quantityPrecision: u32,
    pub baseAssetPrecision: u32,
    pub quotePrecision: u32,
    pub underlyingType: String,
    pub underlyingSubType: Vec<String>,
    pub settlePlan: Option<u32>,
    pub triggerProtect: String,
    pub filters: Vec<Filters>,
    pub orderTypes: Vec<String>,
    pub timeInForce: Vec<String>,
    pub liquidationFee: String,
    pub marketTakeBound: String,
}

/// Does `j` read as `v`?
pub open spec fn decodes_symbol(j: Json, v: Symbol) -> bool {
    &&& str_member(j, "symbol"@) == Some(v.symbol@)
    &&& str_member(j, "pair"@) == Some(v.pair@)
    &&& str_member(j, "contractType"@) == Some(v.contractType@)
    &&& u64_member(j, "deliveryDate"@) == Some(v.deliveryDate)
    &&& u64_member(j, "onboardDate"@) == Some(v.onboardDate)
    &&& str_member(j, "status"@) == Some(v.status@)
    &&& str_member(j, "maintMarginPercent"@) == Some(v.maintMarginPercent@)
    &&& str_member(j, "requiredMarginPercent"@) == Some(v.requiredMarginPercent@)
    &&& str_member(j, "baseAsset"@) == Some(v.baseAsset@)
    &&& str_member(j, "quoteAsset"@) == Some(v.quoteAsset@)
    &&& str_member(j, "marginAsset"@) == Some(v.marginAsset@)
    &&& u32_member(j, "pricePrecision"@) == Some(v.pricePrecision)
    &&& u32_member(j, "quantityPrecision"@) == Some(v.quantityPrecision)
    &&& u32_member(j, "baseAssetPrecision"@) == Some(v.baseAssetPrecision)
    &&& u32_member(j, "quotePrecision"@) == Some(v.quotePrecision)
    &&& str_member(j, "underlyingType"@) == Some(v.underlyingType@)
    &&& match array_member(j, "underlyingSubType"@) { Some(a) => decodes_str_list(a, v.underlyingSubType@), None => false }
    &&& opt_u32_member(j, "settlePlan"@) == Some(v.settlePlan)
    &&& str_member(j, "triggerProtect"@) == Some(v.triggerProtect@)
    &&& match array_member(j, "filters"@) { Some(a) => decodes_filters_list(a, v.filters@), None => false }
    &&& match array_member(j, "orderTypes"@) { Some(a) => decodes_str_list(a, v.orderTypes@), None => false }
    &&& match array_member(j, "timeInForce"@) { Some(a) => decodes_str_list(a, v.timeInForce@), None => false }
    &&& str_member(j, "liquidationFee"@) == Some(v.liquidationFee@)
    &&& str_member(j, "marketTakeBound"@) == Some(v.marketTakeBound@)
}

/// Reads a `Symbol` from `j`.
pub fn decode_symbol(j: &Json) -> (r: Option<Symbol>)
    ensures
        match r {
            Some(v) => decodes_symbol(*j, v),
            None => forall|v: Symbol| !#[trigger] decodes_symbol(*j, v),
        },
{
    let symbol = match get_str(j, "symbol") {
        Some(x) => x,
        None => return None,
    };
    let pair = match get_str(j, "pair") {
        Some(x) => x,
        None => return None,
    };
    let contractType = match get_str(j, "contractType") {
        Some(x) => x,
        None => return None,
    };
    let deliveryDate = match get_u64(j, "deliveryDate") {
        Some(x) => x,
        None => return None,
    };
    let onboardDate = match get_u64(j, "onboardDate") {
        Some(x) => x,
        None => return None,
    };
    let status = match get_str(j, "status") {
        Some(x) => x,
        None => return None,
    };
    let maintMarginPercent = match get_str(j, "maintMarginPercent") {
        Some(x) => x,
        None => return None,
    };
    let requiredMarginPercent = match get_str(j, "requiredMarginPercent") {
        Some(x) => x,
        None => return None,
    };
    let baseAsset = match get_str(j, "baseAsset") {
        Some(x) => x,
        None => return None,
    };
    let quoteAsset = match get_str(j, "quoteAsset") {
        Some(x) => x,
        None => return None,
    };
    let marginAsset = match get_str(j, "marginAsset") {
        Some(x) => x,
        None => return None,
    };
    let pricePrecision = match get_u32(j, "pricePrecision") {
        Some(x) => x,
        None => return None,
    };
    let quantityPrecision = match get_u32(j, "quantityPrecision") {
        Some(x) => x,
        None => return None,
    };
    let baseAssetPrecision = match get_u32(j, "baseAssetPrecision") {
        Some(x) => x,
        None => return None,
    };
    let quotePrecision = match get_u32(j, "quotePrecision") {
        Some(x) => x,
        None => return None,
    };
    let underlyingType = match get_str(j, "underlyingType") {
        Some(x) => x,
        None => return None,
    };
    let underlyingSubType = match get_array(j, "underlyingSubType") {
        Some(a) => match decode_str_list(a) {
            Some(x) => x,
            None => return None,
        },
        None => return None,
    };
    let settlePlan = match get_opt_u32(j, "settlePlan") {
        Some(x) => x,
        None => return None,
    };
    let triggerProtect = match get_str(j, "triggerProtect") {
        Some(x) => x,
        None => return None,
    };
    let filters = match get_array(j, "filters") {
        Some(a) => match decode_filters_list(a) {
            Some(x) => x,
            None => return None,
        },
        None => return None,
    };
    let orderTypes = match get_array(j, "orderTypes") {
        Some(a) => match decode_str_list(a) {
            Some(x) => x,
            None => return None,
        },
        None => return None,
    };
    let timeInForce = match get_array(j, "timeInForce") {
        Some(a) => match decode_str_list(a) {
            Some(x) => x,
            None => return None,
        },
        None => return None,
    };
    let liquidationFee = match get_str(j, "liquidationFee") {
        Some(x) => x,
        None => return None,
    };
    let marketTakeBound = match get_str(j, "marketTakeBound") {
        Some(x) => x,
        None => return None,
    };
    Some(Symbol {
        symbol,
        pair,
        contractType,
        deliveryDate,
        onboardDate,
        status,
        maintMarginPercent,
        requiredMarginPercent,
        baseAsset,
        quoteAsset,
        marginAsset,
        pricePrecision,
        quantityPrecision,
        baseAssetPrecision,
        quotePrecision,
        underlyingType,
        underlyingSubType,
        settlePlan,
        triggerProtect,
        filters,
        orderTypes,
        timeInForce,
        liquidationFee,
        marketTakeBound,
    })
}

pub open spec fn decodes_symbol_list(js: Seq<Json>, vs: Seq<Symbol>) -> bool {
    &&& js.len() == vs.len()
    &&& forall|i: int| 0 <= i < js.len() ==> #[trigger] decodes_symbol(js[i], vs[i])
}

fn decode_symbol_list(js: &Vec<Json>) -> (r: Option<Vec<Symbol>>)
    ensures
        match r {
            Some(v) => decodes_symbol_list(js@, v@),
            None => forall|vs: Seq<Symbol>| !#[trigger] decodes_symbol_list(js@, vs),
        },
{
    let mut out: Vec<Symbol> = Vec::new();
    let mut i: usize = 0;
    while i < js.len()
        invariant
            i <= js@.len(),
            out@.len() == i,
            forall|k: int| 0 <= k < i ==> #[trigger] decodes_symbol(js@[k], out@[k]),
        decreases js@.len() - i,
    {
        match decode_symbol(&js[i]) {
            Some(v) => {
                out.push(v);
            },
            None => {
                proof {
                    assert forall|vs: Seq<Symbol>| !#[trigger] decodes_symbol_list(js@, vs) by {
                        if vs.len() == js@.len() {
                            assert(!decodes_symbol(js@[i as int], vs[i as int]));
                        }
                    }
                }
                return None;
            },
        }
        i = i + 1;
    }
    Some(out)
}

/// A trading rule of a contract, told apart by its `filterType`.
#[derive(Debug, Clone, PartialEq, Eq)]
pub enum Filters {
    PriceFilter {
        min_price: String,
        max_price: String,
        tick_size: String,
    },
    LotSize {
        max_qty: String,
        min_qty: String,
        step_size: String,
    },
    MarketLotSize {
        max_qty: String,
        min_qty: String,
        step_size: String,
    },
    MaxNumOrder {
        limit: u64,
    },
    MaxNumAlgoOrders {
        limit: u64,
    },
    MinNotional {
        notional: String,
    },
    PercentPrice {
        multiplier_up: String,
        multiplier_down: String,
        multiplier_decimal: String,
    },
}

/// Does `j` read as `v`? The member `filterType` names the variant.
pub open spec fn decodes_filters(j: Json, v: Filters) -> bool {
    match str_member(j, "filterType"@) {
        Some(tag) => if tag == "PRICE_FILTER"@ {
            match v {
                Filters::PriceFilter { min_price, max_price, tick_size } => (str_member(j, "minPrice"@) == Some(min_price@)) && (str_member(j, "maxPrice"@) == Some(max_price@)) && (str_member(j, "tickSize"@) == Some(tick_size@)),
                _ => false,
            }
        } else if tag == "LOT_SIZE"@ {
            match v {
                Filters::LotSize { max_qty, min_qty, step_size } => (str_member(j, "maxQty"@) == Some(max_qty@)) && (str_member(j, "minQty"@) == Some(min_qty@)) && (str_member(j, "stepSize"@) == Some(step_size@)),
                _ => false,
            }
        } else if tag == "MARKET_LOT_SIZE"@ {
            match v {
                Filters::MarketLotSize { max_qty, min_qty, step_size } => (str_member(j, "maxQty"@) == Some(max_qty@)) && (str_member(j, "minQty"@) == Some(min_qty@)) && (str_member(j, "stepSize"@) == Some(step_size@)),
                _ => false,
            }
        } else if tag == "MAX_NUM_ORDERS"@ {
            match v {
                Filters::MaxNumOrder { limit } => (u64_member(j, "limit"@) == Some(limit)),
                _ => false,
            }
        } else if tag == "MAX_NUM_ALGO_ORDERS"@ {
            match v {
                Filters::MaxNumAlgoOrders { limit } => (u64_member(j, "limit"@) == Some(limit)),
                _ => false,
            }
        } else if tag == "MIN_NOTIONAL"@ {
            match v {
                Filters::MinNotional { notional } => (str_member(j, "notional"@) == Some(notional@)),
                _ => false,
            }
        } else if tag == "PERCENT_PRICE"@ {
            match v {
                Filters::PercentPrice { multiplier_up, multiplier_down, multiplier_decimal } => (str_member(j, "multiplierUp"@) == Some(multiplier_up@)) && (str_member(j, "multiplierDown"@) == Some(multiplier_down@)) && (str_member(j, "multiplierDecimal"@) == Some(multiplier_decimal@)),
                _ => false,
            }
        } else {
            false
        },
        None => false,
    }
}

/// Reads a `Filters` from `j`.
pub fn decode_filters(j: &Json) -> (r: Option<Filters>)
    ensures
        match r {
            Some(v) => decodes_filters(*j, v),
            None => forall|v: Filters| !#[trigger] decodes_filters(*j, v),
        },
{
    let tag = match get_str(j, "filterType") {
        Some(t) => t,
        None => return None,
    };
    if same_text(tag.as_str(), "PRICE_FILTER") {
        let min_price = match get_str(j, "minPrice") {
            Some(x) => x,
            None => return None,
        };
        let max_price = match get_str(j, "maxPrice") {
            Some(x) => x,
            None => return None,
        };
        let tick_size = match get_str(j, "tickSize") {
            Some(x) => x,
            None => return None,
        };
        Some(Filters::PriceFilter { min_price, max_price, tick_size })
    } else if same_text(tag.as_str(), "LOT_SIZE") {
        let max_qty = match get_str(j, "maxQty") {
            Some(x) => x,
            None => return None,
        };
        let min_qty = match get_str(j, "minQty") {
            Some(x) => x,
            None => return None,
        };
        let step_size = match get_str(j, "stepSize") {
            Some(x) => x,
            None => return None,
        };
        Some(Filters::LotSize { max_qty, min_qty, step_size })
    } else if same_text(tag.as_str(), "MARKET_LOT_SIZE") {
        let max_qty = match get_str(j, "maxQty") {
            Some(x) => x,
            None => return None,
        };
        let min_qty = match get_str(j, "minQty") {
            Some(x) => x,
            None => return None,
        };
        let step_size = match get_str(j, "stepSize") {
            Some(x) => x,
            None => return None,
        };
        Some(Filters::MarketLotSize { max_qty, min_qty, step_size })
    } else if same_text(tag.as_str(), "MAX_NUM_ORDERS") {
        let limit = match get_u64(j, "limit") {
            Some(x) => x,
            None => return None,
        };
        Some(Filters::MaxNumOrder { limit })
    } else if same_text(tag.as_str(), "MAX_NUM_ALGO_ORDERS") {
        let limit = match get_u64(j, "limit") {
            Some(x) => x,
            None => return None,
        };
        Some(Filters::MaxNumAlgoOrders { limit })
    } else if same_text(tag.as_str(), "MIN_NOTIONAL") {
        let notional = match get_str(j, "notional") {
            Some(x) => x,
            None => return None,
        };
        Some(Filters::MinNotional { notional })
    } else if same_text(tag.as_str(), "PERCENT_PRICE") {
        let multiplier_up = match get_str(j, "multiplierUp") {
            Some(x) => x,
            None => return None,
        };
        let multiplier_down = match get_str(j, "multiplierDown") {
            Some(x) => x,
            None => return None,
        };
        let multiplier_decimal = match get_str(j, "multiplierDecimal") {
            Some(x) => x,
            None => return None,
        };
        Some(Filters::PercentPrice { multiplier_up, multiplier_down, multiplier_decimal })
    } else {
        None
    }
}

pub open spec fn decodes_filters_list(js: Seq<Json>, vs: Seq<Filters>) -> bool {
    &&& js.len() == vs.len()
    &&& forall|i: int| 0 <= i < js.len() ==> #[trigger] decodes_filters(js[i], vs[i])
}

fn decode_filters_list(js: &Vec<Json>) -> (r: Option<Vec<Filters>>)
    ensures
        match r {
            Some(v) => decodes_filters_list(js@, v@),
            None => forall|vs: Seq<Filters>| !#[trigger] decodes_filters_list(js@, vs),
        },
{
    let mut out: Vec<Filters> = Vec::new();
    let mut i: usize = 0;
    while i < js.len()
        invariant
            i <= js@.len(),
            out@.len() == i,
            forall|k: int| 0 <= k < i ==> #[trigger] decodes_filters(js@[k], out@[k]),
        decreases js@.len() - i,
    {
        match decode_filters(&js[i]) {
            Some(v) => {
                out.push(v);
            },
            None => {
                proof {
                    assert forall|vs: Seq<Filters>| !#[trigger] decodes_filters_list(js@, vs) by {
                        if vs.len() == js@.len() {
                            assert(!decodes_filters(js@[i as int], vs[i as int]));
                        }
                    }
                }
                return None;
            },
        }
        i = i + 1;
    }
    Some(out)
}

/// The names of the perpetual contracts among `symbols`, in order.
pub open spec fn perpetual_names(symbols: Seq<Symbol>) -> Seq<Seq<char>>
    decreases symbols.len(),
{
    if symbols.len() == 0 {
        Seq::empty()
    } else {
        let rest = perpetual_names(symbols.drop_last());
        if symbols.last().contractType@ == "PERPETUAL"@ {
            rest.push(symbols.last().symbol@)
        } else {
            rest
        }
    }
}

/// The names of the perpetual contracts of the exchange, in order.
pub fn available_coins(info: &ExchangeInfo) -> (names: Vec<String>)
    ensures
        names@.map_values(|s: String| s@) == perpetual_names(info.symbols@),
{
    let mut names: Vec<String> = Vec::new();
    let mut i: usize = 0;
    while i < info.symbols.len()
        invariant
            i <= info.symbols@.len(),
            names@.map_values(|s: String| s@) == perpetual_names(info.symbols@.subrange(0, i as int)),
        decreases info.symbols@.len() - i,
    {
        let s = &info.symbols[i];
        proof {
            assert(info.symbols@.subrange(0, i + 1).drop_last() =~= info.symbols@.subrange(0, i as int));
        }
        if same_text(s.contractType.as_str(), "PERPETUAL") {
            names.push(s.symbol.clone());
        }
        i = i + 1;
        assert(names@.map_values(|s: String| s@) =~= perpetual_names(info.symbols@.subrange(0, i as int)));
    }
    assert(info.symbols@.subrange(0, info.symbols@.len() as int) =~= info.symbols@);
    names
}

} // verus!
