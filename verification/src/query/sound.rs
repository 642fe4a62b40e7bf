//! Queries that get to their end.
use vstd::prelude::*;

use crate::asset::AssetView;
use crate::operation::RouteView;
use crate::query::answer::query_step;
use crate::query::laws::query_ends_with_its_reply;
use crate::query::meaning::{outcome, QueryHost, Stop};
use crate::query::msg::{QueryMsgView, QueryReplyView};
use crate::query::price::{lemma_price_is_not_stuck, offered};

verus! {

/// A sound query gets to its end: where every route has operations, the routes
/// are not offered more than there is, and no price is beyond 128 bits, no
/// answer comes that cannot be taken.
pub proof fn a_sound_query_never_gets_stuck<E, K>(msg: QueryMsgView, host: QueryHost<E, K>)
    requires
        match msg {
            QueryMsgView::SimulateSmartSwapExactAssetIn { routes } => forall|i: int|
                0 <= i < routes.len() ==> #[trigger] routes[i].operations.len() > 0,
            QueryMsgView::SimulateSmartSwapExactAssetInWithMetadata {
                routes,
                asset_in,
                include_spot_price,
            } => {
                &&& forall|i: int|
                    0 <= i < routes.len() ==> #[trigger] routes[i].operations.len() > 0
                &&& include_spot_price ==> {
                    &&& routes.len() > 0 ==> asset_in.amount() > 0
                    &&& offered(routes) <= asset_in.amount()
                    &&& forall|i: int|
                        0 <= i < routes.len() ==> ((host.spot_price)(
                            #[trigger] routes[i].operations,
                        ) matches Ok(price) ==> price <= u128::MAX)
                }
            },
            _ => true,
        },
    ensures
        outcome(query_step(msg), host) != Err::<QueryReplyView, Stop<E>>(Stop::Stuck),
{
    query_ends_with_its_reply(msg, host);
    match msg {
        QueryMsgView::SimulateSmartSwapExactAssetIn { routes } => {
            lemma_total_is_not_stuck(
                (host.asset)((host.ask_denom)(routes)->Ok_0, 0),
                routes,
                host,
            );
        },
        QueryMsgView::SimulateSmartSwapExactAssetInWithMetadata {
            routes,
            asset_in,
            include_spot_price,
        } => {
            lemma_total_is_not_stuck(
                (host.asset)((host.ask_denom)(routes)->Ok_0, 0),
                routes,
                host,
            );
            if include_spot_price {
                assert(routes.take(routes.len() as int) =~= routes);
                lemma_price_is_not_stuck(asset_in, routes, routes.len() as int, host);
            }
        },
        _ => {},
    }
}

/// Routes with operations have a total, or an error in its place.
proof fn lemma_total_is_not_stuck<E, K>(
    start: AssetView,
    routes: Seq<RouteView>,
    host: QueryHost<E, K>,
)
    requires
        forall|i: int| 0 <= i < routes.len() ==> #[trigger] routes[i].operations.len() > 0,
    ensures
        host.total(start, routes) != Err::<AssetView, Stop<E>>(Stop::Stuck),
    decreases routes.len(),
{
    if routes.len() > 0 {
        let before = routes.drop_last();
        assert forall|i: int| 0 <= i < before.len() implies #[trigger] before[i].operations.len()
            > 0 by {
            assert(before[i] == routes[i]);
        }
        lemma_total_is_not_stuck(start, before, host);
        assert(routes.last() == routes[routes.len() - 1]);
    }
}

} // verus!
