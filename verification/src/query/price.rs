//! What holds of the price of a split swap.
use vstd::prelude::*;

use crate::asset::AssetView;
use crate::decimal::{one, product, ratio};
use crate::operation::RouteView;
use crate::query::answer::{can_contribute, contribution, query_step};
use crate::query::laws::query_ends_with_its_reply;
use crate::query::meaning::{outcome, QueryHost, Stop};
use crate::query::msg::{QueryMsgView, QueryReplyView};
use crate::query::split::{
    lemma_each_in_any_order, lemma_same_total, lemma_sum_in_any_order, sum_over,
};
use crate::query::state::WeightedPriceView;

verus! {

/// What the routes are offered, summed up.
pub open spec fn offered(routes: Seq<RouteView>) -> nat {
    sum_over(routes, |route: RouteView| route.offer_asset.amount())
}

/// The weights of the routes, summed up.
spec fn weights(amount_in: nat, routes: Seq<RouteView>) -> nat {
    sum_over(routes, |route: RouteView| ratio(route.offer_asset.amount(), amount_in))
}

/// The weights come to no more than what the routes are offered of the amount.
proof fn lemma_weights(amount_in: nat, routes: Seq<RouteView>)
    requires
        amount_in > 0,
    ensures
        weights(amount_in, routes) * amount_in <= offered(routes) * one(),
    decreases routes.len(),
{
    if routes.len() > 0 {
        let before = routes.drop_last();
        let amount = routes.last().offer_asset.amount();
        lemma_weights(amount_in, before);
        let w = weights(amount_in, before);
        let o = offered(before);
        let r = ratio(amount, amount_in);
        assert(r * amount_in <= amount * one()) by (nonlinear_arith)
            requires
                r == amount * one() / amount_in,
                amount_in > 0,
        ;
        assert((w + r) * amount_in <= (o + amount) * one()) by (nonlinear_arith)
            requires
                w * amount_in <= o * one(),
                r * amount_in <= amount * one(),
        ;
    } else {
        assert(0 * amount_in == 0) by (nonlinear_arith);
    }
}

/// Prices of at most `most` come, weighted, to at most `most` times the weights.
proof fn lemma_weighted_price<E, K>(
    amount_in: nat,
    routes: Seq<RouteView>,
    most: nat,
    host: QueryHost<E, K>,
)
    requires
        host.weighted_price(amount_in, routes) is Ok,
        forall|i: int|
            0 <= i < routes.len() ==> ((host.spot_price)(#[trigger] routes[i].operations)
                matches Ok(price) ==> price <= most),
    ensures
        host.weighted_price(amount_in, routes)->Ok_0 * one() <= most * weights(amount_in, routes),
    decreases routes.len(),
{
    if routes.len() > 0 {
        let before = routes.drop_last();
        assert forall|i: int| 0 <= i < before.len() implies ((host.spot_price)(
            #[trigger] before[i].operations,
        ) matches Ok(price) ==> price <= most) by {
            assert(before[i] == routes[i]);
        }
        lemma_weighted_price(amount_in, before, most, host);
        assert(routes.last() == routes[routes.len() - 1]);
        let price = (host.spot_price)(routes.last().operations)->Ok_0;
        let sum = host.weighted_price(amount_in, before)->Ok_0;
        let w = weights(amount_in, before);
        let r = ratio(routes.last().offer_asset.amount(), amount_in);
        let c = product(price, r);
        assert(c * one() <= price * r) by (nonlinear_arith)
            requires
                c == price * r / one(),
                one() > 0,
        ;
        assert((sum + c) * one() <= most * (w + r)) by (nonlinear_arith)
            requires
                sum * one() <= most * w,
                c * one() <= price * r,
                price <= most,
        ;
    }
}

/// The price of a split swap is no more than the highest price among its routes,
/// as long as the routes are not offered more than there is.
pub proof fn a_weighted_price_is_no_more_than_the_highest<E, K>(
    routes: Seq<RouteView>,
    asset_in: AssetView,
    asset_out: AssetView,
    price: nat,
    most: nat,
    host: QueryHost<E, K>,
)
    requires
        outcome(
            query_step(
                QueryMsgView::SimulateSmartSwapExactAssetInWithMetadata {
                    routes,
                    asset_in,
                    include_spot_price: true,
                },
            ),
            host,
        ) == Ok::<_, Stop<E>>(
            QueryReplyView::SmartExactAssetIn { asset_out, spot_price: Some(price) },
        ),
        asset_in.amount() > 0,
        offered(routes) <= asset_in.amount(),
        forall|i: int|
            0 <= i < routes.len() ==> ((host.spot_price)(#[trigger] routes[i].operations)
                matches Ok(price) ==> price <= most),
    ensures
        price <= most,
{
    query_ends_with_its_reply(
        QueryMsgView::SimulateSmartSwapExactAssetInWithMetadata {
            routes,
            asset_in,
            include_spot_price: true,
        },
        host,
    );
    let amount_in = asset_in.amount();
    lemma_weights(amount_in, routes);
    lemma_weighted_price(amount_in, routes, most, host);
    let w = weights(amount_in, routes);
    let o = offered(routes);
    assert(w <= one()) by (nonlinear_arith)
        requires
            w * amount_in <= o * one(),
            o <= amount_in,
            amount_in > 0,
    ;
    assert(price <= most) by (nonlinear_arith)
        requires
            price * one() <= most * w,
            w <= one(),
            one() > 0,
    ;
}

/// The first routes are offered no more than all.
proof fn lemma_offered(routes: Seq<RouteView>, n: int)
    requires
        0 <= n <= routes.len(),
    ensures
        offered(routes.take(n)) <= offered(routes),
    decreases routes.len(),
{
    if n < routes.len() {
        assert(routes.drop_last().take(n) =~= routes.take(n));
        lemma_offered(routes.drop_last(), n);
    } else {
        assert(routes.take(n) =~= routes);
    }
}

/// The weighted price stays in range: as long as the routes are not offered more
/// than there is, and no route has a price beyond 128 bits, the price of each
/// route is accepted when its turn comes.
pub proof fn prices_in_range_are_accepted<E, K>(
    weighted: WeightedPriceView,
    host: QueryHost<E, K>,
)
    requires
        weighted.done < weighted.routes.len(),
        host.weighted_price(
            weighted.asset_in.amount(),
            weighted.routes.take(weighted.done as int),
        ) == Ok::<_, Stop<E>>(weighted.price),
        weighted.asset_in.amount() > 0,
        offered(weighted.routes) <= weighted.asset_in.amount(),
        forall|i: int|
            0 <= i < weighted.routes.len() ==> ((host.spot_price)(
                #[trigger] weighted.routes[i].operations,
            ) matches Ok(price) ==> price <= u128::MAX),
    ensures
        weighted.accepts((host.spot_price)(weighted.routes[weighted.done as int].operations)),
{
    let n = weighted.done as int;
    let amount_in = weighted.asset_in.amount();
    let before = weighted.routes.take(n);
    let next = weighted.routes.take(n + 1);
    assert(next.drop_last() =~= before);
    assert(next.last() == weighted.routes[n]);
    if let Ok(price) = (host.spot_price)(weighted.routes[n].operations) {
        let most = u128::MAX as nat;
        assert forall|i: int| 0 <= i < before.len() implies ((host.spot_price)(
            #[trigger] before[i].operations,
        ) matches Ok(price) ==> price <= most) by {
            assert(before[i] == weighted.routes[i]);
        }
        lemma_offered(weighted.routes, n + 1);
        lemma_weights(amount_in, next);
        lemma_weighted_price(amount_in, before, most, host);
        let sum = weighted.price;
        let w = weights(amount_in, before);
        let r = ratio(weighted.offered(), amount_in);
        let c = contribution(price, weighted.offered(), amount_in);
        let o = offered(next);
        assert(w + r <= one()) by (nonlinear_arith)
            requires
                (w + r) * amount_in <= o * one(),
                o <= amount_in,
                amount_in > 0,
        ;
        assert(c * one() <= price * r) by (nonlinear_arith)
            requires
                c == price * r / one(),
                one() > 0,
        ;
        assert(sum + c <= most) by (nonlinear_arith)
            requires
                sum * one() <= most * w,
                c * one() <= price * r,
                price <= most,
                w + r <= one(),
                one() > 0,
        ;
    }
}

/// The weighted price of routes that are not offered more than there is, at
/// prices within 128 bits, can be worked out.
pub(crate) proof fn lemma_price_is_not_stuck<E, K>(
    asset_in: AssetView,
    routes: Seq<RouteView>,
    n: int,
    host: QueryHost<E, K>,
)
    requires
        0 <= n <= routes.len(),
        n > 0 ==> asset_in.amount() > 0,
        offered(routes) <= asset_in.amount(),
        forall|i: int|
            0 <= i < routes.len() ==> ((host.spot_price)(#[trigger] routes[i].operations)
                matches Ok(price) ==> price <= u128::MAX),
    ensures
        host.weighted_price(asset_in.amount(), routes.take(n)) != Err::<nat, Stop<E>>(Stop::Stuck),
    decreases n,
{
    if n > 0 {
        lemma_price_is_not_stuck(asset_in, routes, n - 1, host);
        let next = routes.take(n);
        assert(next.drop_last() =~= routes.take(n - 1));
        assert(next.last() == routes[n - 1]);
        if let Ok(price) = host.weighted_price(asset_in.amount(), routes.take(n - 1)) {
            prices_in_range_are_accepted(
                WeightedPriceView {
                    routes,
                    done: (n - 1) as nat,
                    asset_in,
                    asset_out: asset_in,
                    price,
                },
                host,
            );
        }
    }
}

/// The routes' parts in the price, summed up.
spec fn contributions<E, K>(
    amount_in: nat,
    routes: Seq<RouteView>,
    host: QueryHost<E, K>,
) -> nat {
    sum_over(
        routes,
        |route: RouteView|
            contribution(
                (host.spot_price)(route.operations)->Ok_0,
                route.offer_asset.amount(),
                amount_in,
            ),
    )
}

/// Whether a route has a part in the price that fits.
spec fn contributes<E, K>(amount_in: nat, route: RouteView, host: QueryHost<E, K>) -> bool {
    (host.spot_price)(route.operations) matches Ok(price) && can_contribute(
        0,
        price,
        route.offer_asset.amount(),
        amount_in,
    )
}

/// The routes have a price exactly where each has a part in it and the sum fits.
proof fn lemma_price_is_sum<E, K>(
    amount_in: nat,
    routes: Seq<RouteView>,
    host: QueryHost<E, K>,
)
    ensures
        host.weighted_price(amount_in, routes) is Ok <==> {
            &&& forall|i: int|
                0 <= i < routes.len() ==> contributes(amount_in, #[trigger] routes[i], host)
            &&& contributions(amount_in, routes, host) <= u128::MAX
        },
        host.weighted_price(amount_in, routes) matches Ok(price) ==> price == contributions(
            amount_in,
            routes,
            host,
        ),
    decreases routes.len(),
{
    if routes.len() > 0 {
        let before = routes.drop_last();
        lemma_price_is_sum(amount_in, before, host);
        if forall|i: int|
            0 <= i < routes.len() ==> contributes(amount_in, #[trigger] routes[i], host) {
            assert forall|i: int| 0 <= i < before.len() implies contributes(
                amount_in,
                #[trigger] before[i],
                host,
            ) by {
                assert(contributes(amount_in, routes[i], host));
            }
            assert(contributes(amount_in, routes[routes.len() - 1], host));
        } else if host.weighted_price(amount_in, routes) is Ok {
            assert forall|i: int| 0 <= i < routes.len() implies contributes(
                amount_in,
                #[trigger] routes[i],
                host,
            ) by {
                if i < before.len() {
                    assert(contributes(amount_in, before[i], host));
                }
            }
        }
    }
}

/// The order of the routes does not change the price either: where the denom
/// asked for is the same, routes in another order get the same asset and price.
pub proof fn the_order_of_routes_does_not_change_the_price<E, K>(
    routes: Seq<RouteView>,
    other: Seq<RouteView>,
    asset_in: AssetView,
    include_spot_price: bool,
    reply: QueryReplyView,
    host: QueryHost<E, K>,
)
    requires
        routes.to_multiset() == other.to_multiset(),
        (host.ask_denom)(routes) == (host.ask_denom)(other),
        outcome(
            query_step(
                QueryMsgView::SimulateSmartSwapExactAssetInWithMetadata {
                    routes,
                    asset_in,
                    include_spot_price,
                },
            ),
            host,
        ) == Ok::<_, Stop<E>>(reply),
    ensures
        outcome(
            query_step(
                QueryMsgView::SimulateSmartSwapExactAssetInWithMetadata {
                    routes: other,
                    asset_in,
                    include_spot_price,
                },
            ),
            host,
        ) == Ok::<_, Stop<E>>(reply),
{
    query_ends_with_its_reply(
        QueryMsgView::SimulateSmartSwapExactAssetInWithMetadata {
            routes,
            asset_in,
            include_spot_price,
        },
        host,
    );
    query_ends_with_its_reply(
        QueryMsgView::SimulateSmartSwapExactAssetInWithMetadata {
            routes: other,
            asset_in,
            include_spot_price,
        },
        host,
    );
    lemma_same_total((host.asset)((host.ask_denom)(routes)->Ok_0, 0), routes, other, host);
    if include_spot_price {
        let amount_in = asset_in.amount();
        lemma_price_is_sum(amount_in, routes, host);
        lemma_price_is_sum(amount_in, other, host);
        lemma_sum_in_any_order(
            routes,
            other,
            |route: RouteView|
                contribution(
                    (host.spot_price)(route.operations)->Ok_0,
                    route.offer_asset.amount(),
                    amount_in,
                ),
        );
        let holds = |route: RouteView| contributes(amount_in, route, host);
        assert forall|i: int| 0 <= i < routes.len() implies holds(#[trigger] routes[i]) by {
            assert(contributes(amount_in, routes[i], host));
        }
        lemma_each_in_any_order(routes, other, holds);
        assert forall|i: int| 0 <= i < other.len() implies contributes(
            amount_in,
            #[trigger] other[i],
            host,
        ) by {
            assert(holds(other[i]));
        }
    }
}

} // verus!
