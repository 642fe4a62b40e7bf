//! What a query is answered, as a function of what its questions are answered.
use vstd::prelude::*;

use crate::asset::AssetView;
use crate::error::ContractError;
use crate::hop::{v3_hop, AssetInfoView, HopView, PoolKeyView};
use crate::operation::{RouteView, SwapOperationView};
use crate::query::answer::{
    after_ask_denom, after_asset_infos, after_exact_out, after_load_router, after_new_asset,
    after_pool_key, after_route_spot_price, after_simulate, after_spot_price, can_contribute,
    contribution,
    smart_step,
};
use crate::query::msg::{QueryMsgView, QueryReplyView};
use crate::query::state::{GoalView, QueryStepView, SimulationView};

verus! {

/// The answers that the chain gives to the questions of a query. A question has
/// one answer, however often it is asked: a query is answered on one state.
#[verifier::reject_recursive_types(E)]
#[verifier::reject_recursive_types(K)]
pub struct QueryHost<E, K> {
    /// The denom that routes give out.
    pub ask_denom: spec_fn(Seq<RouteView>) -> Result<Seq<char>, E>,
    /// The asset that is an amount of a denom.
    pub asset: spec_fn(Seq<char>, nat) -> AssetView,
    /// The address of the router.
    pub router: Result<Seq<char>, E>,
    /// The key that a pool id stands for.
    pub pool_key: spec_fn(Seq<char>) -> Result<PoolKeyView<K>, E>,
    /// The router's name of a denom.
    pub asset_info: spec_fn(Seq<char>) -> AssetInfoView,
    /// What the router at an address says that hops give for an amount.
    pub simulate: spec_fn(Seq<char>, nat, Seq<HopView<K>>) -> Result<nat, E>,
    /// What has to go in for an asset to come out.
    pub exact_out: spec_fn(AssetView, Seq<SwapOperationView>) -> Result<AssetView, E>,
    /// The price over operations.
    pub spot_price: spec_fn(Seq<SwapOperationView>) -> Result<nat, E>,
}

/// Why a query comes to no reply.
pub enum Stop<E> {
    /// It is turned down.
    Refused(ContractError<E>),
    /// An answer came that cannot be taken: an amount for a route without
    /// operations, or a price with which the weighted price cannot be worked out.
    Stuck,
}

/// A query stopped by an error that came from outside.
pub open spec fn failed<T, E>(error: E) -> Result<T, Stop<E>> {
    Err(Stop::Refused(ContractError::Outside(error)))
}

impl<E, K> QueryHost<E, K> {
    /// The hop of an operation.
    pub open spec fn hop(self, operation: SwapOperationView) -> Result<HopView<K>, E> {
        if operation.is_v3() {
            match (self.pool_key)(operation.pool) {
                Ok(pool_key) => Ok(v3_hop(operation, pool_key)),
                Err(error) => Err(error),
            }
        } else {
            Ok(
                HopView::OraiSwap {
                    offer_asset_info: (self.asset_info)(operation.denom_in),
                    ask_asset_info: (self.asset_info)(operation.denom_out),
                },
            )
        }
    }

    /// The hops of operations, or the first error among them.
    pub open spec fn hops(self, operations: Seq<SwapOperationView>) -> Result<Seq<HopView<K>>, E>
        decreases operations.len(),
    {
        if operations.len() == 0 {
            Ok(seq![])
        } else {
            match self.hops(operations.drop_last()) {
                Err(error) => Err(error),
                Ok(hops) => match self.hop(operations.last()) {
                    Err(error) => Err(error),
                    Ok(hop) => Ok(hops.push(hop)),
                },
            }
        }
    }

    /// What operations give for an amount.
    pub open spec fn simulated(
        self,
        offer_amount: nat,
        operations: Seq<SwapOperationView>,
    ) -> Result<AssetView, Stop<E>> {
        match self.router {
            Err(error) => failed(error),
            Ok(router) => match self.hops(operations) {
                Err(error) => failed(error),
                Ok(hops) => match (self.simulate)(router, offer_amount, hops) {
                    Err(error) => failed(error),
                    Ok(amount) => if operations.len() == 0 {
                        Err(Stop::Stuck)
                    } else {
                        Ok((self.asset)(operations.last().denom_out, amount))
                    },
                },
            },
        }
    }

    /// What routes give together, on top of `start`: the sum of their amounts,
    /// or the first thing to stop it, be it of a route or of the sum.
    pub open spec fn total(self, start: AssetView, routes: Seq<RouteView>) -> Result<
        AssetView,
        Stop<E>,
    >
        decreases routes.len(),
    {
        if routes.len() == 0 {
            Ok(start)
        } else {
            match self.total(start, routes.drop_last()) {
                Err(stop) => Err(stop),
                Ok(sum) => match self.simulated(
                    routes.last().offer_asset.amount(),
                    routes.last().operations,
                ) {
                    Err(stop) => Err(stop),
                    Ok(asset) => if sum.amount() + asset.amount() > u128::MAX {
                        Err(Stop::Refused(ContractError::Overflow))
                    } else {
                        Ok(sum.with_amount(sum.amount() + asset.amount()))
                    },
                },
            }
        }
    }

    /// The price of a swap of `amount_in` over routes: the prices of the routes,
    /// each weighted with its part of the amount.
    pub open spec fn weighted_price(self, amount_in: nat, routes: Seq<RouteView>) -> Result<
        nat,
        Stop<E>,
    >
        decreases routes.len(),
    {
        if routes.len() == 0 {
            Ok(0)
        } else {
            let offered = routes.last().offer_asset.amount();
            match self.weighted_price(amount_in, routes.drop_last()) {
                Err(stop) => Err(stop),
                Ok(sum) => match (self.spot_price)(routes.last().operations) {
                    Err(error) => failed(error),
                    Ok(price) => if can_contribute(sum, price, offered, amount_in) {
                        Ok(sum + contribution(price, offered, amount_in))
                    } else {
                        Err(Stop::Stuck)
                    },
                },
            }
        }
    }

    /// What `asset_in` gives, if it is what the first operation takes in.
    pub open spec fn exact_in(
        self,
        asset_in: AssetView,
        operations: Seq<SwapOperationView>,
    ) -> Result<AssetView, Stop<E>> {
        if operations.len() == 0 {
            Err(Stop::Refused(ContractError::SwapOperationsEmpty))
        } else if asset_in.denom() != operations.first().denom_in {
            Err(Stop::Refused(ContractError::CoinInDenomMismatch))
        } else {
            self.simulated(asset_in.amount(), operations)
        }
    }

    /// What has to go in, if `asset_out` is what the last operation gives out.
    pub open spec fn exact_out_in(
        self,
        asset_out: AssetView,
        operations: Seq<SwapOperationView>,
    ) -> Result<AssetView, Stop<E>> {
        if operations.len() == 0 {
            Err(Stop::Refused(ContractError::SwapOperationsEmpty))
        } else if asset_out.denom() != operations.last().denom_out {
            Err(Stop::Refused(ContractError::CoinOutDenomMismatch))
        } else {
            outside((self.exact_out)(asset_out, operations))
        }
    }

    /// What routes give together.
    pub open spec fn smart(self, routes: Seq<RouteView>) -> Result<AssetView, Stop<E>> {
        match (self.ask_denom)(routes) {
            Err(error) => failed(error),
            Ok(ask_denom) => self.total((self.asset)(ask_denom, 0), routes),
        }
    }

    /// The reply to a query.
    pub open spec fn reply(self, msg: QueryMsgView) -> Result<QueryReplyView, Stop<E>> {
        match msg {
            QueryMsgView::SimulateSwapExactAssetIn { asset_in, swap_operations } => {
                match self.exact_in(asset_in, swap_operations) {
                    Err(stop) => Err(stop),
                    Ok(asset_out) => Ok(QueryReplyView::Asset(asset_out)),
                }
            },
            QueryMsgView::SimulateSwapExactAssetOut { asset_out, swap_operations } => {
                match self.exact_out_in(asset_out, swap_operations) {
                    Err(stop) => Err(stop),
                    Ok(asset_in) => Ok(QueryReplyView::Asset(asset_in)),
                }
            },
            QueryMsgView::SimulateSwapExactAssetInWithMetadata {
                asset_in,
                swap_operations,
                include_spot_price,
            } => match self.exact_in(asset_in, swap_operations) {
                Err(stop) => Err(stop),
                Ok(asset_out) => match if_wanted(
                    include_spot_price,
                    outside((self.spot_price)(swap_operations)),
                ) {
                    Err(stop) => Err(stop),
                    Ok(spot_price) => Ok(QueryReplyView::ExactAssetIn { asset_out, spot_price }),
                },
            },
            QueryMsgView::SimulateSwapExactAssetOutWithMetadata {
                asset_out,
                swap_operations,
                include_spot_price,
            } => match self.exact_out_in(asset_out, swap_operations) {
                Err(stop) => Err(stop),
                Ok(asset_in) => match if_wanted(
                    include_spot_price,
                    outside((self.spot_price)(swap_operations)),
                ) {
                    Err(stop) => Err(stop),
                    Ok(spot_price) => Ok(QueryReplyView::ExactAssetOut { asset_in, spot_price }),
                },
            },
            QueryMsgView::SimulateSmartSwapExactAssetIn { routes } => match self.smart(routes) {
                Err(stop) => Err(stop),
                Ok(asset_out) => Ok(QueryReplyView::Asset(asset_out)),
            },
            QueryMsgView::SimulateSmartSwapExactAssetInWithMetadata {
                routes,
                asset_in,
                include_spot_price,
            } => match self.smart(routes) {
                Err(stop) => Err(stop),
                Ok(asset_out) => match if_wanted(
                    include_spot_price,
                    self.weighted_price(asset_in.amount(), routes),
                ) {
                    Err(stop) => Err(stop),
                    Ok(spot_price) => Ok(
                        QueryReplyView::SmartExactAssetIn { asset_out, spot_price },
                    ),
                },
            },
        }
    }
}

/// What came from outside, its error as one that the query ends with.
pub open spec fn outside<T, E>(answer: Result<T, E>) -> Result<T, Stop<E>> {
    match answer {
        Ok(value) => Ok(value),
        Err(error) => failed(error),
    }
}

/// A price that is asked for only where it is wanted.
pub open spec fn if_wanted<E>(wanted: bool, price: Result<nat, Stop<E>>) -> Result<
    Option<nat>,
    Stop<E>,
> {
    if wanted {
        match price {
            Ok(price) => Ok(Some(price)),
            Err(stop) => Err(stop),
        }
    } else {
        Ok(None)
    }
}

/// How many routes are still to be simulated, and one more for what follows.
pub open spec fn routes_left<E, K>(step: QueryStepView<E, K>) -> nat {
    match step {
        QueryStepView::AskDenom(query) => query.routes.len() + 1,
        QueryStepView::EmptyAsset(start) => start.query.routes.len() + 1,
        QueryStepView::LoadRouter(load) => routes_left_of(load.goal),
        QueryStepView::PoolKey(simulation) => routes_left_of(simulation.goal),
        QueryStepView::AssetInfos(simulation) => routes_left_of(simulation.goal),
        QueryStepView::Simulate(simulation) => routes_left_of(simulation.goal),
        QueryStepView::NewAsset(yielded) => routes_left_of(yielded.goal),
        _ => 0,
    }
}

pub open spec fn routes_left_of(goal: GoalView) -> nat {
    match goal {
        GoalView::Smart { query, done, .. } => if done < query.routes.len() {
            (query.routes.len() - done + 1) as nat
        } else {
            1
        },
        _ => 1,
    }
}

/// Where a step stands among those that treat the same route.
pub open spec fn rank<E, K>(step: QueryStepView<E, K>) -> nat {
    match step {
        QueryStepView::AskDenom(_) => 8,
        QueryStepView::EmptyAsset(_) => 7,
        QueryStepView::LoadRouter(_) => 6,
        QueryStepView::PoolKey(_) => 5,
        QueryStepView::AssetInfos(_) => 5,
        QueryStepView::Simulate(_) => 4,
        QueryStepView::NewAsset(_) => 3,
        QueryStepView::ExactOut(_) => 2,
        QueryStepView::RouteSpotPrice(_) => 1,
        QueryStepView::SpotPrice(_) => 1,
        QueryStepView::Done(_) => 0,
    }
}

/// How many questions of the same kind may still follow.
pub open spec fn repeats_left<E, K>(step: QueryStepView<E, K>) -> nat {
    match step {
        QueryStepView::PoolKey(simulation) => hops_left(simulation),
        QueryStepView::AssetInfos(simulation) => hops_left(simulation),
        QueryStepView::RouteSpotPrice(weighted) => if weighted.done < weighted.routes.len() {
            (weighted.routes.len() - weighted.done) as nat
        } else {
            0
        },
        _ => 0,
    }
}

pub open spec fn hops_left<K>(simulation: SimulationView<K>) -> nat {
    if simulation.hops.len() < simulation.operations.len() {
        (simulation.operations.len() - simulation.hops.len()) as nat
    } else {
        0
    }
}

/// What a query comes to from `step` on, each question answered by `host` and
/// the answer handed back until there is no question left. It gets stuck where a
/// question is about nothing, and where an answer cannot be taken.
pub open spec fn outcome<E, K>(step: QueryStepView<E, K>, host: QueryHost<E, K>) -> Result<
    QueryReplyView,
    Stop<E>,
>
    decreases routes_left(step), rank(step), repeats_left(step),
{
    match step {
        QueryStepView::Done(reply) => match reply {
            Ok(reply) => Ok(reply),
            Err(error) => Err(Stop::Refused(error)),
        },
        QueryStepView::AskDenom(query) => outcome(
            after_ask_denom(query, (host.ask_denom)(query.routes)),
            host,
        ),
        QueryStepView::EmptyAsset(start) => outcome(
            smart_step(start.query, 0, (host.asset)(start.ask_denom, 0)),
            host,
        ),
        QueryStepView::LoadRouter(load) => outcome(after_load_router(load, host.router), host),
        QueryStepView::PoolKey(simulation) => if simulation.hops.len()
            >= simulation.operations.len() {
            Err(Stop::Stuck)
        } else {
            outcome(
                after_pool_key(simulation, (host.pool_key)(simulation.operation().pool)),
                host,
            )
        },
        QueryStepView::AssetInfos(simulation) => if simulation.hops.len()
            >= simulation.operations.len() {
            Err(Stop::Stuck)
        } else {
            outcome(
                after_asset_infos(
                    simulation,
                    (host.asset_info)(simulation.operation().denom_in),
                    (host.asset_info)(simulation.operation().denom_out),
                ),
                host,
            )
        },
        QueryStepView::Simulate(simulation) => {
            let answer = (host.simulate)(
                simulation.router,
                simulation.offer_amount,
                simulation.hops,
            );
            if answer is Ok && simulation.operations.len() == 0 {
                Err(Stop::Stuck)
            } else {
                outcome(after_simulate(simulation, answer), host)
            }
        },
        QueryStepView::NewAsset(yielded) => if yielded.operations.len() == 0 {
            Err(Stop::Stuck)
        } else {
            outcome(
                after_new_asset(yielded, (host.asset)(yielded.denom(), yielded.amount)),
                host,
            )
        },
        QueryStepView::ExactOut(exact_out) => outcome(
            after_exact_out(
                exact_out,
                (host.exact_out)(exact_out.asset_out, exact_out.operations),
            ),
            host,
        ),
        QueryStepView::SpotPrice(price_of) => outcome(
            after_spot_price(price_of, (host.spot_price)(price_of.operations)),
            host,
        ),
        QueryStepView::RouteSpotPrice(weighted) => {
            let answer = (host.spot_price)(weighted.routes[weighted.done as int].operations);
            if weighted.accepts(answer) {
                outcome(after_route_spot_price(weighted, answer), host)
            } else {
                Err(Stop::Stuck)
            }
        },
    }
}

} // verus!
