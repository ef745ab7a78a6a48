//! What the gateway is told to run: one executor for each route, each with
//! its port and its accounts.

use crate::types::{RouteType, TradingAccountConfig};
use vstd::prelude::*;

verus! {

/// One route of the gateway: a back-end family, the port of its front and
/// the accounts that it serves.
#[derive(Debug, PartialEq, Eq)]
pub struct ExecutorConfig {
    pub route_type: String,
    pub enabled: bool,
    pub http_port: u16,
    pub accounts: Vec<TradingAccountConfig>,
}

impl ExecutorConfig {
    /// The back-end family of this route. A route whose type names no family
    /// gets no workers: its front answers, and finds no account.
    pub fn family(&self) -> (r: Option<RouteType>)
        ensures
            r == RouteType::named(self.route_type@),
    {
        RouteType::parse(self.route_type.as_str())
    }
}

/// The whole configuration.
#[derive(Debug, PartialEq, Eq)]
pub struct GatewayConfig {
    pub executors: Vec<ExecutorConfig>,
}

impl GatewayConfig {
    /// The places of the routes to start: those that are enabled, each once,
    /// in the order of the configuration.
    pub fn enabled(&self) -> (r: Vec<usize>)
        ensures
            forall|k: int|
                0 <= k < r@.len() ==> r@[k] < self.executors@.len() && self.executors@[r@[k] as int].enabled,
            forall|k: int, l: int| 0 <= k < l < r@.len() ==> r@[k] < r@[l],
            forall|i: int|
                0 <= i < self.executors@.len() && self.executors@[i].enabled ==> r@.contains(
                    i as usize,
                ),
    {
        let mut places: Vec<usize> = Vec::new();
        let mut i: usize = 0;
        while i < self.executors.len()
            invariant
                i <= self.executors@.len(),
                forall|k: int|
                    0 <= k < places@.len() ==> places@[k] < i && self.executors@[places@[k] as int].enabled,
                forall|k: int, l: int| 0 <= k < l < places@.len() ==> places@[k] < places@[l],
                forall|j: int|
                    0 <= j < i && self.executors@[j].enabled ==> places@.contains(j as usize),
            decreases self.executors@.len() - i,
        {
            if self.executors[i].enabled {
                let ghost before = places@;
                places.push(i);
                proof {
                    assert(places@[before.len() as int] == i);
                    assert forall|j: int|
                        0 <= j < i + 1 && self.executors@[j].enabled implies places@.contains(
                        j as usize,
                    ) by {
                        if j < i {
                            let k = choose|k: int| 0 <= k < before.len() && before[k] == j as usize;
                            assert(places@[k] == j as usize);
                        }
                    }
                }
            }
            i += 1;
        }
        places
    }
}

} // verus!
