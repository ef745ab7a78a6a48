//! The requests that the front accepts and the messages that a worker exchanges.

use crate::keys::same_text;
use vstd::prelude::*;

verus! {

/// The position that an account should hold in one contract.
#[derive(Debug, PartialEq, Eq)]
pub struct ContractPositionTarget {
    pub exchange: String,
    pub symbol: String,
    pub position: i32,
    pub shift: i32,
}

impl Default for ContractPositionTarget {
    fn default() -> (r: Self)
        ensures
            r.exchange@.len() == 0,
            r.symbol@.len() == 0,
            r.position == 0,
            r.shift == 0,
    {
        ContractPositionTarget { exchange: String::new(), symbol: String::new(), position: 0, shift: 0 }
    }
}

/// What identifies a trading account to the gateway. The credentials of the
/// account are no concern of the routing and are not held here.
#[derive(Debug, PartialEq, Eq)]
pub struct TradingAccountConfig {
    pub broker_id: String,
    pub account: String,
    pub route_type: String,
}

impl Default for TradingAccountConfig {
    fn default() -> (r: Self)
        ensures
            r.broker_id@.len() == 0,
            r.account@.len() == 0,
            r.route_type@.len() == 0,
    {
        TradingAccountConfig {
            broker_id: String::new(),
            account: String::new(),
            route_type: String::new(),
        }
    }
}

/// A request as a worker receives it.
#[derive(Debug, PartialEq, Eq)]
pub enum ReqMessage {
    QueryTradingAccount,
    QueryPositionDetail,
    SetContractTarget(ContractPositionTarget),
}

/// The single answer of a worker to one request.
#[derive(Debug, PartialEq, Eq)]
pub enum RspMessage {
    /// The encoded result of the back-end.
    Payload(Vec<u8>),
    /// The back-end failed; the text is its own.
    Failure(String),
}

/// Body of the call that asks for the balance of an account.
#[derive(Debug, PartialEq, Eq)]
pub struct ReqQueryTradingAccount {
    pub broker_id: String,
    pub account: String,
}

impl Default for ReqQueryTradingAccount {
    fn default() -> (r: Self)
        ensures
            r.broker_id@.len() == 0,
            r.account@.len() == 0,
    {
        ReqQueryTradingAccount { broker_id: String::new(), account: String::new() }
    }
}

/// Body of the call that asks for the positions of an account.
#[derive(Debug, PartialEq, Eq)]
pub struct ReqQueryPositionDetail {
    pub broker_id: String,
    pub account: String,
}

impl Default for ReqQueryPositionDetail {
    fn default() -> (r: Self)
        ensures
            r.broker_id@.len() == 0,
            r.account@.len() == 0,
    {
        ReqQueryPositionDetail { broker_id: String::new(), account: String::new() }
    }
}

/// Body of the call that sets the target position of an account.
#[derive(Debug, PartialEq, Eq)]
pub struct ReqSetContractTarget {
    pub broker_id: String,
    pub account: String,
    pub target: ContractPositionTarget,
}

impl Default for ReqSetContractTarget {
    fn default() -> (r: Self)
        ensures
            r.broker_id@.len() == 0,
            r.account@.len() == 0,
            r.target.exchange@.len() == 0,
            r.target.symbol@.len() == 0,
            r.target.position == 0,
            r.target.shift == 0,
    {
        ReqSetContractTarget {
            broker_id: String::new(),
            account: String::new(),
            target: ContractPositionTarget::default(),
        }
    }
}

/// Body of the call that queries a back-end directly, without a worker.
#[derive(Debug, PartialEq, Eq)]
pub struct ReqFullQuery {
    pub ta: TradingAccountConfig,
}

impl Default for ReqFullQuery {
    fn default() -> (r: Self)
        ensures
            r.ta.broker_id@.len() == 0,
            r.ta.account@.len() == 0,
            r.ta.route_type@.len() == 0,
    {
        ReqFullQuery { ta: TradingAccountConfig::default() }
    }
}

/// A back-end family. Each has its own market data and its own workers.
#[derive(Debug, Clone, Copy, PartialEq, Eq, Structural)]
pub enum RouteType {
    CtpFutures,
    ToraStock,
}

impl RouteType {
    /// The family that a configuration or a request names, if any.
    pub open spec fn named(name: Seq<char>) -> Option<RouteType> {
        if name == "ctp_futures"@ {
            Some(RouteType::CtpFutures)
        } else if name == "tora_stock"@ {
            Some(RouteType::ToraStock)
        } else {
            None
        }
    }

    /// Reads a route type from its name. Names are matched exactly.
    pub fn parse(name: &str) -> (r: Option<RouteType>)
        ensures
            r == RouteType::named(name@),
    {
        if same_text(name, "ctp_futures") {
            Some(RouteType::CtpFutures)
        } else if same_text(name, "tora_stock") {
            Some(RouteType::ToraStock)
        } else {
            None
        }
    }

    /// The name of this family.
    pub fn name(self) -> (r: &'static str)
        ensures
            RouteType::named(r@) == Some(self),
    {
        proof {
            reveal_strlit("ctp_futures");
            reveal_strlit("tora_stock");
            assert("ctp_futures"@.len() == 11);
            assert("tora_stock"@.len() == 10);
        }
        match self {
            RouteType::CtpFutures => "ctp_futures",
            RouteType::ToraStock => "tora_stock",
        }
    }
}

} // verus!
