//! What holds of swaps that are split over routes.
use vstd::prelude::*;

use crate::asset::AssetView;
use crate::operation::RouteView;
use crate::query::answer::{query_step, smart_step};
use crate::query::laws::{lemma_smart, query_ends_with_its_reply};
use crate::query::meaning::{outcome, QueryHost, Stop};
use crate::query::msg::{QueryMsgView, QueryReplyView};
use crate::query::state::{QueryStepView, SmartQueryView, SmartStartView};

verus! {

/// A number for each route, summed up.
pub open spec fn sum_over(routes: Seq<RouteView>, number: spec_fn(RouteView) -> nat) -> nat
    decreases routes.len(),
{
    if routes.len() == 0 {
        0
    } else {
        sum_over(routes.drop_last(), number) + number(routes.last())
    }
}

/// What a route gives on its own.
pub open spec fn yield_of<E, K>(route: RouteView, host: QueryHost<E, K>) -> Result<
    AssetView,
    Stop<E>,
> {
    host.simulated(route.offer_asset.amount(), route.operations)
}

/// What the routes give, each on its own, summed up.
pub open spec fn yields<E, K>(routes: Seq<RouteView>, host: QueryHost<E, K>) -> nat {
    sum_over(routes, |route: RouteView| yield_of(route, host)->Ok_0.amount())
}

/// The routes have a total exactly where each has a yield and the sum fits.
proof fn lemma_total_is_sum<E, K>(
    start: AssetView,
    routes: Seq<RouteView>,
    host: QueryHost<E, K>,
)
    ensures
        host.total(start, routes) is Ok <==> {
            &&& forall|i: int| 0 <= i < routes.len() ==> yield_of(#[trigger] routes[i], host) is Ok
            &&& routes.len() == 0 || start.amount() + yields(routes, host) <= u128::MAX
        },
        host.total(start, routes) matches Ok(total) ==> total == start.with_amount(
            start.amount() + yields(routes, host),
        ),
    decreases routes.len(),
{
    if routes.len() > 0 {
        let before = routes.drop_last();
        lemma_total_is_sum(start, before, host);
        if forall|i: int| 0 <= i < routes.len() ==> yield_of(#[trigger] routes[i], host) is Ok {
            assert forall|i: int| 0 <= i < before.len() implies yield_of(
                #[trigger] before[i],
                host,
            ) is Ok by {
                assert(yield_of(routes[i], host) is Ok);
            }
            assert(yield_of(routes[routes.len() - 1], host) is Ok);
        } else if host.total(start, routes) is Ok {
            assert forall|i: int| 0 <= i < routes.len() implies yield_of(
                #[trigger] routes[i],
                host,
            ) is Ok by {
                if i < before.len() {
                    assert(yield_of(before[i], host) is Ok);
                }
            }
        }
    }
}

/// A sum is that without one of its parts, and the part.
proof fn lemma_sum_without(
    routes: Seq<RouteView>,
    i: int,
    number: spec_fn(RouteView) -> nat,
)
    requires
        0 <= i < routes.len(),
    ensures
        sum_over(routes, number) == sum_over(routes.remove(i), number) + number(routes[i]),
    decreases routes.len(),
{
    let last = routes.len() - 1;
    if i == last {
        assert(routes.remove(i) =~= routes.drop_last());
    } else {
        lemma_sum_without(routes.drop_last(), i, number);
        assert(routes.remove(i).drop_last() =~= routes.drop_last().remove(i));
        assert(routes.remove(i).last() == routes.last());
    }
}

/// A sum does not rest on the order of its parts.
pub(crate) proof fn lemma_sum_in_any_order(
    routes: Seq<RouteView>,
    other: Seq<RouteView>,
    number: spec_fn(RouteView) -> nat,
)
    requires
        routes.to_multiset() == other.to_multiset(),
    ensures
        sum_over(routes, number) == sum_over(other, number),
    decreases routes.len(),
{
    routes.to_multiset_ensures();
    other.to_multiset_ensures();
    if routes.len() > 0 {
        let last = routes.len() - 1;
        assert(routes[last] == routes.last());
        assert(routes.contains(routes.last()));
        assert(routes.to_multiset().count(routes.last()) > 0);
        assert(other.contains(routes.last()));
        let i = choose|i: int| 0 <= i < other.len() && other[i] == routes.last();
        assert(routes.remove(last) =~= routes.drop_last());
        assert(routes.drop_last().to_multiset() == other.remove(i).to_multiset());
        lemma_sum_in_any_order(routes.drop_last(), other.remove(i), number);
        lemma_sum_without(other, i, number);
    }
}

/// What holds of each route of a list holds of each in any order.
pub(crate) proof fn lemma_each_in_any_order(
    routes: Seq<RouteView>,
    other: Seq<RouteView>,
    holds: spec_fn(RouteView) -> bool,
)
    requires
        routes.to_multiset() == other.to_multiset(),
        forall|i: int| 0 <= i < routes.len() ==> holds(#[trigger] routes[i]),
    ensures
        forall|i: int| 0 <= i < other.len() ==> holds(#[trigger] other[i]),
{
    routes.to_multiset_ensures();
    other.to_multiset_ensures();
    assert forall|i: int| 0 <= i < other.len() implies holds(#[trigger] other[i]) by {
        assert(other.contains(other[i]));
        assert(other.to_multiset().count(other[i]) > 0);
        assert(routes.contains(other[i]));
    }
}

/// What a split swap comes to, once the denom is known that it gives out.
proof fn lemma_split<E, K>(start: SmartStartView, host: QueryHost<E, K>)
    ensures
        outcome(QueryStepView::EmptyAsset(start), host) == match host.total(
            (host.asset)(start.ask_denom, 0),
            start.query.routes,
        ) {
            Err(stop) => Err(stop),
            Ok(total) => outcome(smart_step(start.query, start.query.routes.len(), total), host),
        },
{
    let empty = (host.asset)(start.ask_denom, 0);
    assert(start.query.routes.take(0) =~= seq![]);
    lemma_smart(start.query, 0, empty, empty, host);
}

/// A split swap gives what its routes give together: it succeeds exactly where
/// each route does and the sum fits in 128 bits, and then its amount is the sum
/// of theirs.
pub proof fn a_split_swap_gives_the_sum_of_its_routes<E, K>(
    routes: Seq<RouteView>,
    ask_denom: Seq<char>,
    host: QueryHost<E, K>,
)
    requires
        (host.ask_denom)(routes) == Ok::<_, E>(ask_denom),
        (host.asset)(ask_denom, 0).amount() == 0,
    ensures
        ({
            let reply = outcome(
                query_step(QueryMsgView::SimulateSmartSwapExactAssetIn { routes }),
                host,
            );
            &&& reply is Ok <==> {
                &&& forall|i: int|
                    0 <= i < routes.len() ==> yield_of(#[trigger] routes[i], host) is Ok
                &&& yields(routes, host) <= u128::MAX
            }
            &&& reply is Ok ==> reply->Ok_0 == QueryReplyView::Asset(
                (host.asset)(ask_denom, 0).with_amount(yields(routes, host)),
            )
        }),
{
    query_ends_with_its_reply(QueryMsgView::SimulateSmartSwapExactAssetIn { routes }, host);
    lemma_total_is_sum((host.asset)(ask_denom, 0), routes, host);
}

/// A swap that is split over one route gives the amount that the route gives
/// without splitting.
pub proof fn one_route_is_no_split<E, K>(
    route: RouteView,
    ask_denom: Seq<char>,
    asset_out: AssetView,
    host: QueryHost<E, K>,
)
    requires
        (host.ask_denom)(seq![route]) == Ok::<_, E>(ask_denom),
        (host.asset)(ask_denom, 0).amount() == 0,
        outcome(
            query_step(
                QueryMsgView::SimulateSwapExactAssetIn {
                    asset_in: route.offer_asset,
                    swap_operations: route.operations,
                },
            ),
            host,
        ) == Ok::<_, Stop<E>>(QueryReplyView::Asset(asset_out)),
        asset_out.amount() <= u128::MAX,
    ensures
        outcome(
            query_step(QueryMsgView::SimulateSmartSwapExactAssetIn { routes: seq![route] }),
            host,
        ) == Ok::<_, Stop<E>>(
            QueryReplyView::Asset((host.asset)(ask_denom, 0).with_amount(asset_out.amount())),
        ),
{
    query_ends_with_its_reply(
        QueryMsgView::SimulateSwapExactAssetIn {
            asset_in: route.offer_asset,
            swap_operations: route.operations,
        },
        host,
    );
    query_ends_with_its_reply(
        QueryMsgView::SimulateSmartSwapExactAssetIn { routes: seq![route] },
        host,
    );
    assert(seq![route].drop_last() =~= seq![]);
    reveal_with_fuel(QueryHost::total, 2);
}

/// A swap that is split over one route answers exactly as the route does without
/// splitting, where the denom asked for is what the route gives out, and the
/// amount of an asset is all that its denom leaves open.
pub proof fn one_route_answers_as_the_plain_swap<E, K>(
    route: RouteView,
    asset_out: AssetView,
    host: QueryHost<E, K>,
)
    requires
        (host.ask_denom)(seq![route]) == Ok::<_, E>(route.operations.last().denom_out),
        forall|amount: nat|
            (host.asset)(route.operations.last().denom_out, 0).with_amount(amount)
                == #[trigger] (host.asset)(route.operations.last().denom_out, amount),
        outcome(
            query_step(
                QueryMsgView::SimulateSwapExactAssetIn {
                    asset_in: route.offer_asset,
                    swap_operations: route.operations,
                },
            ),
            host,
        ) == Ok::<_, Stop<E>>(QueryReplyView::Asset(asset_out)),
        asset_out.amount() <= u128::MAX,
    ensures
        outcome(
            query_step(QueryMsgView::SimulateSmartSwapExactAssetIn { routes: seq![route] }),
            host,
        ) == Ok::<_, Stop<E>>(QueryReplyView::Asset(asset_out)),
{
    let denom = route.operations.last().denom_out;
    let empty = (host.asset)(denom, 0);
    assert(empty.with_amount(0).amount() == 0);
    one_route_is_no_split(route, denom, asset_out, host);
    query_ends_with_its_reply(
        QueryMsgView::SimulateSwapExactAssetIn {
            asset_in: route.offer_asset,
            swap_operations: route.operations,
        },
        host,
    );
    let amount = (host.simulate)(host.router->Ok_0, route.offer_asset.amount(), host.hops(
        route.operations,
    )->Ok_0)->Ok_0;
    assert(asset_out == (host.asset)(denom, amount));
    assert(empty.with_amount(amount) == asset_out);
    assert(empty.with_amount(amount).amount() == amount);
}

/// The order of the routes does not change what a split swap gives.
pub proof fn the_order_of_routes_does_not_count<E, K>(
    routes: Seq<RouteView>,
    other: Seq<RouteView>,
    ask_denom: Seq<char>,
    reply: QueryReplyView,
    host: QueryHost<E, K>,
)
    requires
        routes.to_multiset() == other.to_multiset(),
        outcome(
            QueryStepView::EmptyAsset(
                SmartStartView { ask_denom, query: SmartQueryView { routes, metadata: None } },
            ),
            host,
        ) == Ok::<_, Stop<E>>(reply),
    ensures
        yields(other, host) == yields(routes, host),
        outcome(
            QueryStepView::EmptyAsset(
                SmartStartView {
                    ask_denom,
                    query: SmartQueryView { routes: other, metadata: None },
                },
            ),
            host,
        ) == Ok::<_, Stop<E>>(reply),
{
    let start = (host.asset)(ask_denom, 0);
    lemma_split(
        SmartStartView { ask_denom, query: SmartQueryView { routes, metadata: None } },
        host,
    );
    lemma_split(
        SmartStartView { ask_denom, query: SmartQueryView { routes: other, metadata: None } },
        host,
    );
    lemma_same_total(start, routes, other, host);
}

/// The same of the query: where the denom asked for is the same, routes in
/// another order get the same reply.
pub proof fn the_order_of_routes_does_not_count_in_a_query<E, K>(
    routes: Seq<RouteView>,
    other: Seq<RouteView>,
    reply: QueryReplyView,
    host: QueryHost<E, K>,
)
    requires
        routes.to_multiset() == other.to_multiset(),
        (host.ask_denom)(routes) == (host.ask_denom)(other),
        outcome(query_step(QueryMsgView::SimulateSmartSwapExactAssetIn { routes }), host)
            == Ok::<_, Stop<E>>(reply),
    ensures
        outcome(query_step(QueryMsgView::SimulateSmartSwapExactAssetIn { routes: other }), host)
            == Ok::<_, Stop<E>>(reply),
{
    query_ends_with_its_reply(QueryMsgView::SimulateSmartSwapExactAssetIn { routes }, host);
    query_ends_with_its_reply(QueryMsgView::SimulateSmartSwapExactAssetIn { routes: other }, host);
    lemma_same_total((host.asset)((host.ask_denom)(routes)->Ok_0, 0), routes, other, host);
}

/// Routes in another order have the same total.
pub(crate) proof fn lemma_same_total<E, K>(
    start: AssetView,
    routes: Seq<RouteView>,
    other: Seq<RouteView>,
    host: QueryHost<E, K>,
)
    requires
        routes.to_multiset() == other.to_multiset(),
        host.total(start, routes) is Ok,
    ensures
        yields(other, host) == yields(routes, host),
        host.total(start, other) == host.total(start, routes),
{
    lemma_total_is_sum(start, routes, host);
    lemma_total_is_sum(start, other, host);
    lemma_sum_in_any_order(
        routes,
        other,
        |route: RouteView| yield_of(route, host)->Ok_0.amount(),
    );
    let has_yield = |route: RouteView| yield_of(route, host) is Ok;
    assert forall|i: int| 0 <= i < routes.len() implies has_yield(#[trigger] routes[i]) by {
        assert(yield_of(routes[i], host) is Ok);
    }
    lemma_each_in_any_order(routes, other, has_yield);
    assert forall|i: int| 0 <= i < other.len() implies yield_of(
        #[trigger] other[i],
        host,
    ) is Ok by {
        assert(has_yield(other[i]));
    }
    routes.to_multiset_ensures();
    other.to_multiset_ensures();
}

} // verus!
