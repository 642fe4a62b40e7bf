//! What holds of every query.
use vstd::prelude::*;

use crate::asset::AssetView;
use crate::hop::{AssetInfoView, HopView, PoolKeyView};
use crate::operation::{RouteView, SwapOperationView};
use crate::query::answer::{
    after_ask_denom, after_asset_infos, after_exact_out, after_load_router, after_new_asset,
    after_pool_key, after_route_spot_price, after_simulate, after_spot_price, price_step,
    query_step, simulate_step, simulation_step, smart_step,
};
use crate::query::meaning::{failed, if_wanted, outcome, outside, QueryHost, Stop};
use crate::query::msg::{QueryMsgView, QueryReplyView};
use crate::query::state::{
    GoalView, QueryStepView, RouterLoadView, SimulationView, SmartQueryView,
    WeightedPriceView, YieldView,
};

verus! {

/// Once the hops of the first operations cannot be had, those of all cannot.
pub(crate) proof fn lemma_hops_error<E, K>(
    host: QueryHost<E, K>,
    operations: Seq<SwapOperationView>,
    n: int,
)
    requires
        0 <= n <= operations.len(),
        host.hops(operations.take(n)) is Err,
    ensures
        host.hops(operations) == host.hops(operations.take(n)),
    decreases operations.len(),
{
    if n < operations.len() {
        assert(operations.drop_last().take(n) =~= operations.take(n));
        lemma_hops_error(host, operations.drop_last(), n);
    } else {
        assert(operations.take(n) =~= operations);
    }
}

/// What comes of the asset that a route gives.
spec fn goal_outcome<E, K>(
    goal: GoalView,
    operations: Seq<SwapOperationView>,
    asset: AssetView,
    host: QueryHost<E, K>,
) -> Result<QueryReplyView, Stop<E>> {
    outcome(after_new_asset(YieldView { amount: 0, operations, goal }, asset), host)
}

/// Putting the hops together asks for each in turn, and has all of them
/// simulated at the end.
proof fn lemma_simulation<E, K>(simulation: SimulationView<K>, host: QueryHost<E, K>)
    requires
        simulation.hops.len() <= simulation.operations.len(),
        host.hops(simulation.operations.take(simulation.hops.len() as int)) == Ok::<_, E>(
            simulation.hops,
        ),
    ensures
        outcome(simulation_step(simulation), host) == match host.hops(simulation.operations) {
            Err(error) => failed(error),
            Ok(hops) => match (host.simulate)(simulation.router, simulation.offer_amount, hops) {
                Err(error) => failed(error),
                Ok(amount) => if simulation.operations.len() == 0 {
                    Err(Stop::Stuck)
                } else {
                    goal_outcome(
                        simulation.goal,
                        simulation.operations,
                        (host.asset)(simulation.operations.last().denom_out, amount),
                        host,
                    )
                },
            },
        },
    decreases simulation.operations.len() - simulation.hops.len(),
{
    let n = simulation.hops.len() as int;
    let operations = simulation.operations;
    if n == operations.len() {
        assert(operations.take(n) =~= operations);
        let answer = (host.simulate)(
            simulation.router,
            simulation.offer_amount,
            simulation.hops,
        );
        let step = QueryStepView::<E, K>::Simulate(simulation);
        match answer {
            Err(error) => {
                let end = after_simulate(simulation, answer);
                assert(outcome(step, host) == outcome(end, host));
            },
            Ok(amount) => {
                if operations.len() > 0 {
                    let yielded = YieldView { amount, operations, goal: simulation.goal };
                    let asset = (host.asset)(yielded.denom(), amount);
                    let next = QueryStepView::<E, K>::NewAsset(yielded);
                    assert(outcome(step, host) == outcome(next, host));
                    assert(outcome(next, host) == outcome(after_new_asset(yielded, asset), host));
                }
            },
        }
    } else {
        let next = operations.take(n + 1);
        assert(next.drop_last() =~= operations.take(n));
        assert(next.last() == simulation.operation());
        match host.hop(simulation.operation()) {
            Ok(hop) => {
                assert(host.hops(next) == Ok::<_, E>(simulation.hops.push(hop)));
                lemma_simulation(simulation.with_hop(hop), host);
            },
            Err(error) => {
                lemma_hops_error(host, operations, n + 1);
                reveal_with_fuel(outcome, 2);
            },
        }
    }
}

/// Simulating a route gives what the operations give, or the first error.
proof fn lemma_route<E, K>(load: RouterLoadView, host: QueryHost<E, K>)
    ensures
        outcome(QueryStepView::LoadRouter(load), host) == match host.simulated(
            load.offer_amount,
            load.operations,
        ) {
            Err(error) => Err(error),
            Ok(asset) => goal_outcome(load.goal, load.operations, asset, host),
        },
{
    match host.router {
        Err(error) => {
            reveal_with_fuel(outcome, 2);
        },
        Ok(router) => {
            assert(load.operations.take(0) =~= seq![]);
            lemma_simulation(
                SimulationView {
                    router,
                    offer_amount: load.offer_amount,
                    operations: load.operations,
                    hops: seq![],
                    goal: load.goal,
                },
                host,
            );
        },
    }
}

/// Once the first routes have no total, all of them have none.
pub(crate) proof fn lemma_total_error<E, K>(
    host: QueryHost<E, K>,
    start: AssetView,
    routes: Seq<RouteView>,
    n: int,
)
    requires
        0 <= n <= routes.len(),
        host.total(start, routes.take(n)) is Err,
    ensures
        host.total(start, routes) == host.total(start, routes.take(n)),
    decreases routes.len(),
{
    if n < routes.len() {
        assert(routes.drop_last().take(n) =~= routes.take(n));
        lemma_total_error(host, start, routes.drop_last(), n);
    } else {
        assert(routes.take(n) =~= routes);
    }
}

/// Simulating the routes one by one gives their total, or the first error.
pub(crate) proof fn lemma_smart<E, K>(
    query: SmartQueryView,
    done: nat,
    start: AssetView,
    asset_out: AssetView,
    host: QueryHost<E, K>,
)
    requires
        done <= query.routes.len(),
        host.total(start, query.routes.take(done as int)) == Ok::<_, Stop<E>>(asset_out),
    ensures
        outcome(smart_step(query, done, asset_out), host) == match host.total(
            start,
            query.routes,
        ) {
            Err(error) => Err(error),
            Ok(total) => outcome(smart_step(query, query.routes.len(), total), host),
        },
    decreases query.routes.len() - done,
{
    let routes = query.routes;
    if done == routes.len() {
        assert(routes.take(done as int) =~= routes);
    } else {
        let next = routes.take(done as int + 1);
        let route = routes[done as int];
        assert(next.drop_last() =~= routes.take(done as int));
        assert(next.last() == route);
        lemma_route(
            RouterLoadView {
                offer_amount: route.offer_asset.amount(),
                operations: route.operations,
                goal: GoalView::Smart { query, done, asset_out },
            },
            host,
        );
        match host.total(start, next) {
            Err(error) => {
                lemma_total_error(host, start, routes, done as int + 1);
            },
            Ok(sum) => {
                lemma_smart(query, done + 1, start, sum, host);
            },
        }
    }
}

/// Once the price of the first routes cannot be had, that of all cannot.
pub(crate) proof fn lemma_price_error<E, K>(
    host: QueryHost<E, K>,
    amount_in: nat,
    routes: Seq<RouteView>,
    n: int,
)
    requires
        0 <= n <= routes.len(),
        host.weighted_price(amount_in, routes.take(n)) is Err,
    ensures
        host.weighted_price(amount_in, routes) == host.weighted_price(amount_in, routes.take(n)),
    decreases routes.len(),
{
    if n < routes.len() {
        assert(routes.drop_last().take(n) =~= routes.take(n));
        lemma_price_error(host, amount_in, routes.drop_last(), n);
    } else {
        assert(routes.take(n) =~= routes);
    }
}

/// Asking for the prices of the routes one by one gives their weighted price,
/// or the first error.
proof fn lemma_price<E, K>(weighted: WeightedPriceView, host: QueryHost<E, K>)
    requires
        weighted.done <= weighted.routes.len(),
        host.weighted_price(
            weighted.asset_in.amount(),
            weighted.routes.take(weighted.done as int),
        ) == Ok::<_, Stop<E>>(weighted.price),
    ensures
        outcome(price_step(weighted), host) == match host.weighted_price(
            weighted.asset_in.amount(),
            weighted.routes,
        ) {
            Err(stop) => Err(stop),
            Ok(price) => Ok(
                QueryReplyView::SmartExactAssetIn {
                    asset_out: weighted.asset_out,
                    spot_price: Some(price),
                },
            ),
        },
    decreases weighted.routes.len() - weighted.done,
{
    let routes = weighted.routes;
    let amount_in = weighted.asset_in.amount();
    let n = weighted.done as int;
    if n == routes.len() {
        assert(routes.take(n) =~= routes);
    } else {
        let next = routes.take(n + 1);
        assert(next.drop_last() =~= routes.take(n));
        assert(next.last() == routes[n]);
        match host.weighted_price(amount_in, next) {
            Err(error) => {
                lemma_price_error(host, amount_in, routes, n + 1);
                reveal_with_fuel(outcome, 2);
            },
            Ok(price) => {
                lemma_price(
                    WeightedPriceView { done: weighted.done + 1, price, ..weighted },
                    host,
                );
            },
        }
    }
}

/// A query whose questions are answered by `host`, one after the other, ends
/// with the reply that `host` makes for it.
pub proof fn query_ends_with_its_reply<E, K>(msg: QueryMsgView, host: QueryHost<E, K>)
    ensures
        outcome(query_step(msg), host) == host.reply(msg),
{
    reveal_with_fuel(outcome, 4);
    match query_step::<E, K>(msg) {
        QueryStepView::LoadRouter(load) => {
            lemma_route(load, host);
        },
        QueryStepView::AskDenom(query) => {
            if let Ok(ask_denom) = (host.ask_denom)(query.routes) {
                let start = (host.asset)(ask_denom, 0);
                assert(query.routes.take(0) =~= seq![]);
                lemma_smart(query, 0, start, start, host);
                if let Ok(total) = host.total(start, query.routes) {
                    if let Some(metadata) = query.metadata {
                        lemma_price(
                            WeightedPriceView {
                                routes: query.routes,
                                done: 0,
                                asset_in: metadata.asset_in,
                                asset_out: total,
                                price: 0,
                            },
                            host,
                        );
                    }
                }
            }
        },
        _ => {},
    }
}

/// The first step of a query is well-formed.
pub proof fn a_query_starts_well_formed<E, K>(msg: QueryMsgView)
    ensures
        query_step::<E, K>(msg).well_formed(),
{
}

/// A step that follows a well-formed one is well-formed, whatever the answer.
/// Left out is an amount for a route without operations, which cannot be taken.
pub proof fn answers_keep_steps_well_formed<E, K>(
    step: QueryStepView<E, K>,
    text: Result<Seq<char>, E>,
    asset: AssetView,
    pool_key: Result<PoolKeyView<K>, E>,
    offer_asset_info: AssetInfoView,
    ask_asset_info: AssetInfoView,
    number: Result<nat, E>,
    asset_in: Result<AssetView, E>,
)
    requires
        step.well_formed(),
        step matches QueryStepView::Simulate(simulation) ==> number is Ok
            ==> simulation.operations.len() > 0,
    ensures
        match step {
            QueryStepView::Done(_) => true,
            QueryStepView::AskDenom(query) => after_ask_denom::<E, K>(query, text).well_formed(),
            QueryStepView::EmptyAsset(start) => smart_step::<E, K>(
                start.query,
                0,
                asset,
            ).well_formed(),
            QueryStepView::LoadRouter(load) => after_load_router::<E, K>(load, text).well_formed(),
            QueryStepView::PoolKey(simulation) => after_pool_key(
                simulation,
                pool_key,
            ).well_formed(),
            QueryStepView::AssetInfos(simulation) => after_asset_infos::<E, K>(
                simulation,
                offer_asset_info,
                ask_asset_info,
            ).well_formed(),
            QueryStepView::Simulate(simulation) => after_simulate(
                simulation,
                number,
            ).well_formed(),
            QueryStepView::NewAsset(yielded) => after_new_asset::<E, K>(
                yielded,
                asset,
            ).well_formed(),
            QueryStepView::ExactOut(exact_out) => after_exact_out::<E, K>(
                exact_out,
                asset_in,
            ).well_formed(),
            QueryStepView::SpotPrice(price_of) => after_spot_price::<E, K>(
                price_of,
                number,
            ).well_formed(),
            QueryStepView::RouteSpotPrice(weighted) => after_route_spot_price::<E, K>(
                weighted,
                number,
            ).well_formed(),
        },
{
}

/// Where every route of a split swap has operations, the router's answer can be
/// taken, whatever it is.
pub proof fn routes_with_operations_take_any_amount<E, K>(simulation: SimulationView<K>)
    requires
        QueryStepView::<E, K>::Simulate(simulation).well_formed(),
        simulation.goal matches GoalView::Smart { query, .. } ==> forall|i: int|
            0 <= i < query.routes.len() ==> #[trigger] query.routes[i].operations.len() > 0,
    ensures
        simulation.operations.len() > 0,
{
}

/// Metadata changes nothing of the asset that `asset_in` gives: asked for with
/// metadata, it comes with the price if that is wanted, and without it if not.
pub proof fn metadata_keeps_the_asset_out<E, K>(
    asset_in: AssetView,
    swap_operations: Seq<SwapOperationView>,
    include_spot_price: bool,
    host: QueryHost<E, K>,
)
    ensures
        ({
            let plain = outcome(
                query_step(QueryMsgView::SimulateSwapExactAssetIn { asset_in, swap_operations }),
                host,
            );
            let with_metadata = outcome(
                query_step(
                    QueryMsgView::SimulateSwapExactAssetInWithMetadata {
                        asset_in,
                        swap_operations,
                        include_spot_price,
                    },
                ),
                host,
            );
            match plain {
                Err(error) => with_metadata == Err::<QueryReplyView, _>(error),
                Ok(QueryReplyView::Asset(asset_out)) => with_metadata == match if_wanted(
                    include_spot_price,
                    outside((host.spot_price)(swap_operations)),
                ) {
                    Err(error) => Err(error),
                    Ok(spot_price) => Ok(QueryReplyView::ExactAssetIn { asset_out, spot_price }),
                },
                Ok(_) => false,
            }
        }),
{
    query_ends_with_its_reply(
        QueryMsgView::SimulateSwapExactAssetIn { asset_in, swap_operations },
        host,
    );
    query_ends_with_its_reply(
        QueryMsgView::SimulateSwapExactAssetInWithMetadata {
            asset_in,
            swap_operations,
            include_spot_price,
        },
        host,
    );
}

/// Metadata changes nothing of the asset that `asset_out` takes.
pub proof fn metadata_keeps_the_asset_in<E, K>(
    asset_out: AssetView,
    swap_operations: Seq<SwapOperationView>,
    include_spot_price: bool,
    host: QueryHost<E, K>,
)
    ensures
        ({
            let plain = outcome(
                query_step(QueryMsgView::SimulateSwapExactAssetOut { asset_out, swap_operations }),
                host,
            );
            let with_metadata = outcome(
                query_step(
                    QueryMsgView::SimulateSwapExactAssetOutWithMetadata {
                        asset_out,
                        swap_operations,
                        include_spot_price,
                    },
                ),
                host,
            );
            match plain {
                Err(error) => with_metadata == Err::<QueryReplyView, _>(error),
                Ok(QueryReplyView::Asset(asset_in)) => with_metadata == match if_wanted(
                    include_spot_price,
                    outside((host.spot_price)(swap_operations)),
                ) {
                    Err(error) => Err(error),
                    Ok(spot_price) => Ok(QueryReplyView::ExactAssetOut { asset_in, spot_price }),
                },
                Ok(_) => false,
            }
        }),
{
    query_ends_with_its_reply(
        QueryMsgView::SimulateSwapExactAssetOut { asset_out, swap_operations },
        host,
    );
    query_ends_with_its_reply(
        QueryMsgView::SimulateSwapExactAssetOutWithMetadata {
            asset_out,
            swap_operations,
            include_spot_price,
        },
        host,
    );
}

/// Metadata changes nothing of what routes give together.
pub proof fn metadata_keeps_the_total<E, K>(
    routes: Seq<RouteView>,
    asset_in: AssetView,
    include_spot_price: bool,
    host: QueryHost<E, K>,
)
    ensures
        ({
            let plain = outcome(
                query_step(QueryMsgView::SimulateSmartSwapExactAssetIn { routes }),
                host,
            );
            let with_metadata = outcome(
                query_step(
                    QueryMsgView::SimulateSmartSwapExactAssetInWithMetadata {
                        routes,
                        asset_in,
                        include_spot_price,
                    },
                ),
                host,
            );
            match plain {
                Err(error) => with_metadata == Err::<QueryReplyView, _>(error),
                Ok(QueryReplyView::Asset(asset_out)) => with_metadata == match if_wanted(
                    include_spot_price,
                    host.weighted_price(asset_in.amount(), routes),
                ) {
                    Err(error) => Err(error),
                    Ok(spot_price) => Ok(
                        QueryReplyView::SmartExactAssetIn { asset_out, spot_price },
                    ),
                },
                Ok(_) => false,
            }
        }),
{
    query_ends_with_its_reply(QueryMsgView::SimulateSmartSwapExactAssetIn { routes }, host);
    query_ends_with_its_reply(
        QueryMsgView::SimulateSmartSwapExactAssetInWithMetadata {
            routes,
            asset_in,
            include_spot_price,
        },
        host,
    );
}

/// The hops are those of the operations, one for one and in their order; where
/// there are none, the error is that of the first operation without a hop.
pub proof fn hops_are_those_of_the_operations<E, K>(
    operations: Seq<SwapOperationView>,
    host: QueryHost<E, K>,
)
    ensures
        match host.hops(operations) {
            Ok(hops) => {
                &&& hops.len() == operations.len()
                &&& forall|i: int|
                    0 <= i < operations.len() ==> host.hop(operations[i]) == Ok::<_, E>(
                        #[trigger] hops[i],
                    )
            },
            Err(error) => exists|i: int|
                {
                    &&& 0 <= i < operations.len()
                    &&& host.hop(#[trigger] operations[i]) == Err::<HopView<K>, _>(error)
                    &&& forall|j: int| 0 <= j < i ==> host.hop(#[trigger] operations[j]) is Ok
                },
        },
    decreases operations.len(),
{
    if operations.len() > 0 {
        let before = operations.drop_last();
        let last = operations.len() - 1;
        hops_are_those_of_the_operations(before, host);
        match host.hops(before) {
            Ok(hops) => {
                if host.hop(operations.last()) is Err {
                    assert forall|j: int| 0 <= j < last implies host.hop(
                        #[trigger] operations[j],
                    ) is Ok by {
                        assert(host.hop(before[j]) == Ok::<_, E>(hops[j]));
                    }
                    assert(operations[last] == operations.last());
                } else {
                    assert forall|i: int| 0 <= i < operations.len() implies host.hop(operations[i])
                        == Ok::<_, E>(#[trigger] host.hops(operations)->Ok_0[i]) by {
                        if i < last {
                            assert(host.hop(before[i]) == Ok::<_, E>(hops[i]));
                        }
                    }
                }
            },
            Err(error) => {
                let i = choose|i: int|
                    {
                        &&& 0 <= i < before.len()
                        &&& host.hop(#[trigger] before[i]) == Err::<HopView<K>, _>(error)
                        &&& forall|j: int| 0 <= j < i ==> host.hop(#[trigger] before[j]) is Ok
                    };
                assert(operations[i] == before[i]);
                assert forall|j: int| 0 <= j < i implies host.hop(
                    #[trigger] operations[j],
                ) is Ok by {
                    assert(operations[j] == before[j]);
                }
            },
        }
    }
}

/// The denom that is offered does not count in a simulation, only the amount.
pub proof fn the_offered_denom_does_not_count<E, K>(
    asset_in: AssetView,
    other: AssetView,
    operations: Seq<SwapOperationView>,
    goal: GoalView,
    host: QueryHost<E, K>,
)
    requires
        asset_in.amount() == other.amount(),
    ensures
        simulate_step::<E, K>(asset_in, operations, goal) == simulate_step::<E, K>(
            other,
            operations,
            goal,
        ),
        outcome(simulate_step::<E, K>(asset_in, operations, goal), host) == outcome(
            simulate_step::<E, K>(other, operations, goal),
            host,
        ),
{
}

/// Whether two operations ask the router for the same: they swap the same, and
/// through the same pool unless it is the pair pool of their denoms.
pub open spec fn ask_the_same(a: SwapOperationView, b: SwapOperationView) -> bool {
    &&& a.denom_in == b.denom_in
    &&& a.denom_out == b.denom_out
    &&& a.pool == b.pool || (!a.is_v3() && !b.is_v3())
}

/// The text of a pair pool does not count: its hop names the two denoms and
/// nothing else, so a swap gives the same whatever the pool is called.
pub proof fn the_text_of_a_pair_pool_does_not_count<E, K>(
    asset_in: AssetView,
    operations: Seq<SwapOperationView>,
    other: Seq<SwapOperationView>,
    host: QueryHost<E, K>,
)
    requires
        operations.len() == other.len(),
        forall|i: int|
            0 <= i < operations.len() ==> ask_the_same(#[trigger] operations[i], other[i]),
    ensures
        forall|i: int|
            0 <= i < operations.len() && !(#[trigger] operations[i]).is_v3() ==> host.hop(
                operations[i],
            ) == Ok::<HopView<K>, E>(
                HopView::OraiSwap {
                    offer_asset_info: (host.asset_info)(operations[i].denom_in),
                    ask_asset_info: (host.asset_info)(operations[i].denom_out),
                },
            ),
        host.hops(operations) == host.hops(other),
        outcome(simulate_step::<E, K>(asset_in, operations, GoalView::Asset), host) == outcome(
            simulate_step::<E, K>(asset_in, other, GoalView::Asset),
            host,
        ),
        outcome(
            query_step(
                QueryMsgView::SimulateSwapExactAssetIn { asset_in, swap_operations: operations },
            ),
            host,
        ) == outcome(
            query_step(
                QueryMsgView::SimulateSwapExactAssetIn { asset_in, swap_operations: other },
            ),
            host,
        ),
{
    lemma_same_hops(operations, other, host);
    lemma_route(
        RouterLoadView { offer_amount: asset_in.amount(), operations, goal: GoalView::Asset },
        host,
    );
    lemma_route(
        RouterLoadView {
            offer_amount: asset_in.amount(),
            operations: other,
            goal: GoalView::Asset,
        },
        host,
    );
    if operations.len() > 0 {
        assert(ask_the_same(operations[operations.len() - 1], other[operations.len() - 1]));
        assert(ask_the_same(operations[0], other[0]));
    }
}

/// Operations that ask the router for the same have the same hops.
proof fn lemma_same_hops<E, K>(
    operations: Seq<SwapOperationView>,
    other: Seq<SwapOperationView>,
    host: QueryHost<E, K>,
)
    requires
        operations.len() == other.len(),
        forall|i: int|
            0 <= i < operations.len() ==> ask_the_same(#[trigger] operations[i], other[i]),
    ensures
        host.hops(operations) == host.hops(other),
    decreases operations.len(),
{
    if operations.len() > 0 {
        let before = operations.drop_last();
        let last = operations.len() - 1;
        assert forall|i: int| 0 <= i < before.len() implies ask_the_same(
            #[trigger] before[i],
            other.drop_last()[i],
        ) by {
            assert(ask_the_same(operations[i], other[i]));
        }
        lemma_same_hops(before, other.drop_last(), host);
        assert(ask_the_same(operations[last], other[last]));
    }
}

} // verus!
