//! What the HTTP front decides: which call is served where, which request a
//! call becomes, and which envelope or failure answers it.
//!
//! Sending a request to a worker and waiting for its reply are the caller's
//! part. The functions here take what was received and what came back.

use crate::codec::encoded_len;
use crate::envelope::XResponse;
use crate::error::{BaseError, Error};
use crate::types::{
    ReqFullQuery, ReqMessage, ReqQueryPositionDetail, ReqQueryTradingAccount,
    ReqSetContractTarget, RouteType, RspMessage,
};
use vstd::prelude::*;

verus! {

/// How many requests may wait in the channel of one worker. A sender that
/// finds the channel full waits for room; no request is dropped.
pub const WORKER_QUEUE_CAPACITY: usize = 1000;

/// How many seconds a direct query may take before its caller stops waiting.
pub const FULL_QUERY_DEADLINE_SECS: u64 = 30;

/// The calls that the front serves.
#[derive(Debug, Clone, Copy, PartialEq, Eq, Structural)]
pub enum Endpoint {
    FullQuery,
    QueryPositionDetail,
    QueryTradingAccount,
    SetContractTarget,
}

impl Endpoint {
    /// The path of this call, as a text.
    pub open spec fn route(self) -> Seq<char> {
        match self {
            Endpoint::FullQuery => "/api/full_query"@,
            Endpoint::QueryPositionDetail => "/api/query_position_detail"@,
            Endpoint::QueryTradingAccount => "/api/query_trading_account"@,
            Endpoint::SetContractTarget => "/api/set_contract_target"@,
        }
    }

    /// The path under which this call is served.
    pub fn path(self) -> (r: &'static str)
        ensures
            r@ == self.route(),
    {
        match self {
            Endpoint::FullQuery => "/api/full_query",
            Endpoint::QueryPositionDetail => "/api/query_position_detail",
            Endpoint::QueryTradingAccount => "/api/query_trading_account",
            Endpoint::SetContractTarget => "/api/set_contract_target",
        }
    }
}

/// A request on its way to the worker of one account. The account is given
/// by its broker and its name, the two by which the roster files it.
#[derive(Debug, PartialEq, Eq)]
pub struct Dispatch {
    pub broker_id: String,
    pub account: String,
    pub message: ReqMessage,
}

/// What became of a request that was handed to a worker's channel.
#[derive(Debug, PartialEq, Eq)]
pub enum Delivery {
    /// The channel was closed: the worker had terminated before.
    Refused,
    /// The request was accepted, and the worker ended without answering it.
    Dropped,
    /// The worker answered.
    Replied(RspMessage),
}

/// What became of a direct query.
#[derive(Debug, PartialEq, Eq)]
pub enum QueryOutcome {
    /// The deadline passed first.
    TimedOut,
    /// The back-end failed.
    Failed(BaseError),
    /// The back-end answered; these are the encoded bytes of its snapshot.
    Answered(Vec<u8>),
}

/// Turns a balance query into the request for the worker of its account.
pub fn query_trading_account(req: ReqQueryTradingAccount) -> (d: Dispatch)
    ensures
        d.broker_id == req.broker_id,
        d.account == req.account,
        d.message == ReqMessage::QueryTradingAccount,
{
    Dispatch {
        broker_id: req.broker_id,
        account: req.account,
        message: ReqMessage::QueryTradingAccount,
    }
}

/// Turns a position query into the request for the worker of its account.
pub fn query_position_detail(req: ReqQueryPositionDetail) -> (d: Dispatch)
    ensures
        d.broker_id == req.broker_id,
        d.account == req.account,
        d.message == ReqMessage::QueryPositionDetail,
{
    Dispatch {
        broker_id: req.broker_id,
        account: req.account,
        message: ReqMessage::QueryPositionDetail,
    }
}

/// The text with which a target without a symbol is refused.
pub open spec fn symbol_missing() -> Seq<char> {
    "Symbol can't be null"@
}

/// Checks a target and turns it into the request for the worker of its
/// account.
///
/// A target with an empty symbol is refused here, before any worker is
/// looked up; every other target is passed on unchanged.
pub fn set_contract_target(req: ReqSetContractTarget) -> (r: Result<Dispatch, Error>)
    ensures
        req.target.symbol@.len() == 0 ==> (r matches Err(Error::SimpleErr(text)) && text@
            == symbol_missing()),
        req.target.symbol@.len() != 0 ==> (r matches Ok(d) && d.broker_id == req.broker_id
            && d.account == req.account && d.message == ReqMessage::SetContractTarget(
            req.target,
        )),
{
    if req.target.symbol.as_str().is_empty() {
        return Err(Error::SimpleErr("Symbol can't be null".to_owned()));
    }
    Ok(
        Dispatch {
            broker_id: req.broker_id,
            account: req.account,
            message: ReqMessage::SetContractTarget(req.target),
        },
    )
}

/// Picks the back-end family that a direct query goes to.
///
/// The route type of the account is matched exactly; one that names no
/// family is refused with `InvalidRouteType`.
pub fn full_query(req: &ReqFullQuery) -> (r: Result<RouteType, Error>)
    ensures
        r == match RouteType::named(req.ta.route_type@) {
            Some(family) => Ok::<RouteType, Error>(family),
            None => Err(Error::BaseErr(BaseError::InvalidRouteType)),
        },
{
    match RouteType::parse(req.ta.route_type.as_str()) {
        Some(family) => Ok(family),
        None => Err(Error::BaseErr(BaseError::InvalidRouteType)),
    }
}

/// Answers a call that went to a worker.
///
/// A payload is wrapped into a success envelope. A failure of the back-end
/// is passed on with its own text. A request that the worker could not take,
/// or took and never answered, ends as `WorkerUnavailable`. Nothing is tried
/// a second time.
pub fn conclude(delivery: Delivery) -> (r: Result<XResponse<String>, Error>)
    requires
        delivery matches Delivery::Replied(RspMessage::Payload(bytes)) ==> encoded_len(
            bytes@.len(),
        ) <= isize::MAX,
    ensures
        match delivery {
            Delivery::Refused => r == Err::<XResponse<String>, Error>(
                Error::BaseErr(BaseError::WorkerUnavailable),
            ),
            Delivery::Dropped => r == Err::<XResponse<String>, Error>(
                Error::BaseErr(BaseError::WorkerUnavailable),
            ),
            Delivery::Replied(RspMessage::Failure(text)) => r == Err::<XResponse<String>, Error>(
                Error::BaseErr(BaseError::Backend(text)),
            ),
            Delivery::Replied(RspMessage::Payload(bytes)) => r matches Ok(envelope)
                && envelope.carries(bytes@) && envelope.data@.len() == encoded_len(bytes@.len()),
        },
{
    match delivery {
        Delivery::Refused => Err(Error::BaseErr(BaseError::WorkerUnavailable)),
        Delivery::Dropped => Err(Error::BaseErr(BaseError::WorkerUnavailable)),
        Delivery::Replied(RspMessage::Failure(text)) => Err(
            Error::BaseErr(BaseError::Backend(text)),
        ),
        Delivery::Replied(RspMessage::Payload(bytes)) => Ok(XResponse::<String>::new(&bytes)),
    }
}

/// Answers a direct query.
///
/// A snapshot is wrapped into a success envelope, a failure of the back-end
/// is passed on, and a query that did not answer in time ends as
/// `QueryTimeout`.
pub fn conclude_full_query(outcome: QueryOutcome) -> (r: Result<XResponse<String>, Error>)
    requires
        outcome matches QueryOutcome::Answered(bytes) ==> encoded_len(bytes@.len()) <= isize::MAX,
    ensures
        match outcome {
            QueryOutcome::TimedOut => r == Err::<XResponse<String>, Error>(
                Error::BaseErr(BaseError::QueryTimeout),
            ),
            QueryOutcome::Failed(e) => r == Err::<XResponse<String>, Error>(Error::BaseErr(e)),
            QueryOutcome::Answered(bytes) => r matches Ok(envelope) && envelope.carries(bytes@)
                && envelope.data@.len() == encoded_len(bytes@.len()),
        },
{
    match outcome {
        QueryOutcome::TimedOut => Err(Error::BaseErr(BaseError::QueryTimeout)),
        QueryOutcome::Failed(e) => Err(Error::BaseErr(e)),
        QueryOutcome::Answered(bytes) => Ok(XResponse::<String>::new(&bytes)),
    }
}

} // verus!
