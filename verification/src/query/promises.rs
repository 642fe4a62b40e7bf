//! What a query is answered, said of what was asked and what the chain answers.
use vstd::prelude::*;

use crate::asset::{AssetView, CoinView, Cw20CoinView};
use crate::error::ContractError;
use crate::hop::{HopView, PoolKeyView};
use crate::operation::{RouteView, SwapOperationView};
use crate::query::answer::{
    after_ask_denom, after_asset_infos, after_exact_out, after_load_router, after_new_asset,
    after_pool_key, after_simulate, after_spot_price, exact_in_step, exact_out_step, query_step,
    simulate_step, smart_step,
};
use crate::query::laws::{
    lemma_hops_error, lemma_price_error, lemma_total_error, query_ends_with_its_reply,
};
use crate::query::meaning::{outcome, QueryHost, Stop};
use crate::query::msg::{QueryMsgView, QueryReplyView};
use crate::query::state::{GoalView, QueryStepView};

verus! {

/// Hops that are made of the operations as the chain answers are those that the
/// router is asked for.
proof fn lemma_hops<E, K>(
    operations: Seq<SwapOperationView>,
    hops: Seq<HopView<K>>,
    n: int,
    host: QueryHost<E, K>,
)
    requires
        0 <= n <= operations.len(),
        n <= hops.len(),
        forall|i: int|
            0 <= i < n && (exists|j: int|
                0 <= j < operations[i].pool.len() && operations[i].pool[j] == '-') ==> (
            #[trigger] hops[i] matches HopView::SwapV3 { pool_key, x_to_y } && (host.pool_key)(
                operations[i].pool,
            ) == Ok::<_, E>(pool_key) && (x_to_y <==> pool_key.token_x == operations[i].denom_in)),
        forall|i: int|
            0 <= i < n && (forall|j: int|
                0 <= j < operations[i].pool.len() ==> operations[i].pool[j] != '-')
                ==> #[trigger] hops[i] == (HopView::<K>::OraiSwap {
                offer_asset_info: (host.asset_info)(operations[i].denom_in),
                ask_asset_info: (host.asset_info)(operations[i].denom_out),
            }),
    ensures
        host.hops(operations.take(n)) == Ok::<_, E>(hops.take(n)),
    decreases n,
{
    if n == 0 {
        assert(hops.take(0) =~= seq![]);
    } else {
        lemma_hops(operations, hops, n - 1, host);
        let operation = operations[n - 1];
        assert(operations.take(n).drop_last() =~= operations.take(n - 1));
        assert(operations.take(n).last() == operation);
        assert(hops.take(n) =~= hops.take(n - 1).push(hops[n - 1]));
        if exists|j: int| 0 <= j < operation.pool.len() && operation.pool[j] == '-' {
            assert(hops[n - 1] is SwapV3);
        } else {
            assert(hops[n - 1] is OraiSwap);
        }
    }
}

/// What is asked of the router, and what is replied. An operation whose pool has
/// a hyphen anywhere in its text is a hop through the concentrated liquidity pool
/// of that text, with its key as it is, and from `x` exactly where the key's
/// token `x` and what the operation takes in are the same text. An operation
/// whose pool has no hyphen is a hop through the pair pool of its two denoms. The
/// router is asked for these hops, in order, for the amount offered; what it says
/// is replied as an amount of what the last operation gives out.
pub proof fn what_a_swap_gives<E, K>(
    asset_in: AssetView,
    amount: nat,
    operations: Seq<SwapOperationView>,
    router: Seq<char>,
    hops: Seq<HopView<K>>,
    host: QueryHost<E, K>,
)
    requires
        operations.len() > 0,
        asset_in == AssetView::Native(CoinView { denom: operations[0].denom_in, amount })
            || asset_in == AssetView::Cw20(
            Cw20CoinView { address: operations[0].denom_in, amount },
        ),
        host.router == Ok::<_, E>(router),
        hops.len() == operations.len(),
        forall|i: int|
            0 <= i < operations.len() && (exists|j: int|
                0 <= j < operations[i].pool.len() && operations[i].pool[j] == '-') ==> (
            #[trigger] hops[i] matches HopView::SwapV3 { pool_key, x_to_y } && (host.pool_key)(
                operations[i].pool,
            ) == Ok::<_, E>(pool_key) && (x_to_y <==> pool_key.token_x == operations[i].denom_in)),
        forall|i: int|
            0 <= i < operations.len() && (forall|j: int|
                0 <= j < operations[i].pool.len() ==> operations[i].pool[j] != '-')
                ==> #[trigger] hops[i] == (HopView::<K>::OraiSwap {
                offer_asset_info: (host.asset_info)(operations[i].denom_in),
                ask_asset_info: (host.asset_info)(operations[i].denom_out),
            }),
    ensures
        ({
            let reply = outcome(
                query_step(
                    QueryMsgView::SimulateSwapExactAssetIn {
                        asset_in,
                        swap_operations: operations,
                    },
                ),
                host,
            );
            &&& (host.simulate)(router, amount, hops) matches Ok(given) ==> reply == Ok::<
                _,
                Stop<E>,
            >(
                QueryReplyView::Asset(
                    (host.asset)(operations[operations.len() - 1].denom_out, given),
                ),
            )
            &&& (host.simulate)(router, amount, hops) matches Err(error) ==> reply == Err::<
                QueryReplyView,
                _,
            >(Stop::Refused(ContractError::Outside(error)))
        }),
{
    query_ends_with_its_reply(
        QueryMsgView::SimulateSwapExactAssetIn { asset_in, swap_operations: operations },
        host,
    );
    lemma_hops(operations, hops, operations.len() as int, host);
    assert(operations.take(operations.len() as int) =~= operations);
    assert(hops.take(operations.len() as int) =~= hops);
}

/// A swap is refused for want of operations exactly where there are none, and
/// for its denom exactly where that is not what the first operation takes in.
pub proof fn when_an_asset_in_is_refused<E, K>(
    asset_in: AssetView,
    denom: Seq<char>,
    amount: nat,
    swap_operations: Seq<SwapOperationView>,
    host: QueryHost<E, K>,
)
    requires
        asset_in == AssetView::Native(CoinView { denom, amount }) || asset_in == AssetView::Cw20(
            Cw20CoinView { address: denom, amount },
        ),
    ensures
        ({
            let reply = outcome(
                query_step(QueryMsgView::SimulateSwapExactAssetIn { asset_in, swap_operations }),
                host,
            );
            &&& reply == Err::<QueryReplyView, _>(
                Stop::<E>::Refused(ContractError::SwapOperationsEmpty),
            ) <==> swap_operations.len() == 0
            &&& reply == Err::<QueryReplyView, _>(
                Stop::<E>::Refused(ContractError::CoinInDenomMismatch),
            ) <==> swap_operations.len() > 0 && denom != swap_operations[0].denom_in
        }),
{
    query_ends_with_its_reply(
        QueryMsgView::SimulateSwapExactAssetIn { asset_in, swap_operations },
        host,
    );
}

/// A swap for which the router is not known, or the key of a pool with a hyphen
/// in its text, is answered with what the chain says of the first of these.
pub proof fn when_a_swap_cannot_be_simulated<E, K>(
    asset_in: AssetView,
    amount: nat,
    operations: Seq<SwapOperationView>,
    n: int,
    error: E,
    host: QueryHost<E, K>,
)
    requires
        operations.len() > 0,
        asset_in == AssetView::Native(CoinView { denom: operations[0].denom_in, amount })
            || asset_in == AssetView::Cw20(
            Cw20CoinView { address: operations[0].denom_in, amount },
        ),
        host.router == Err::<Seq<char>, E>(error) || {
            &&& host.router is Ok
            &&& 0 <= n < operations.len()
            &&& exists|j: int| 0 <= j < operations[n].pool.len() && operations[n].pool[j] == '-'
            &&& (host.pool_key)(operations[n].pool) == Err::<PoolKeyView<K>, E>(error)
            &&& forall|i: int|
                0 <= i < n && (exists|j: int|
                    0 <= j < operations[i].pool.len() && operations[i].pool[j] == '-') ==> (
                host.pool_key)((#[trigger] operations[i]).pool) is Ok
        },
    ensures
        outcome(
            query_step(
                QueryMsgView::SimulateSwapExactAssetIn { asset_in, swap_operations: operations },
            ),
            host,
        ) == Err::<QueryReplyView, _>(Stop::Refused(ContractError::Outside(error))),
{
    query_ends_with_its_reply(
        QueryMsgView::SimulateSwapExactAssetIn { asset_in, swap_operations: operations },
        host,
    );
    if host.router is Ok {
        let hops = Seq::new(
            n as nat,
            |i: int|
                if exists|j: int|
                    0 <= j < operations[i].pool.len() && operations[i].pool[j] == '-' {
                    HopView::SwapV3 {
                        pool_key: (host.pool_key)(operations[i].pool)->Ok_0,
                        x_to_y: (host.pool_key)(operations[i].pool)->Ok_0.token_x
                            == operations[i].denom_in,
                    }
                } else {
                    HopView::OraiSwap {
                        offer_asset_info: (host.asset_info)(operations[i].denom_in),
                        ask_asset_info: (host.asset_info)(operations[i].denom_out),
                    }
                },
        );
        assert forall|i: int|
            0 <= i < n && (exists|j: int|
                0 <= j < operations[i].pool.len() && operations[i].pool[j] == '-') implies (
        #[trigger] hops[i] matches HopView::SwapV3 { pool_key, x_to_y } && (host.pool_key)(
            operations[i].pool,
        ) == Ok::<_, E>(pool_key) && (x_to_y <==> pool_key.token_x == operations[i].denom_in)) by {
            assert((host.pool_key)(operations[i].pool) is Ok);
        }
        lemma_hops(operations, hops, n, host);
        let next = operations.take(n + 1);
        assert(next.drop_last() =~= operations.take(n));
        assert(next.last() == operations[n]);
        assert(host.hops(next) == Err::<Seq<HopView<K>>, E>(error));
        lemma_hops_error(host, operations, n + 1);
    }
}

/// With metadata a swap is answered with the asset that it is answered with
/// alone, and with the price over its operations exactly where that is wanted; a
/// price that the chain does not give is its error.
pub proof fn what_metadata_adds_to_a_swap<E, K>(
    asset_in: AssetView,
    swap_operations: Seq<SwapOperationView>,
    include_spot_price: bool,
    host: QueryHost<E, K>,
)
    ensures
        ({
            let alone = outcome(
                query_step(QueryMsgView::SimulateSwapExactAssetIn { asset_in, swap_operations }),
                host,
            );
            let reply = outcome(
                query_step(
                    QueryMsgView::SimulateSwapExactAssetInWithMetadata {
                        asset_in,
                        swap_operations,
                        include_spot_price,
                    },
                ),
                host,
            );
            match alone {
                Err(stop) => reply == Err::<QueryReplyView, _>(stop),
                Ok(QueryReplyView::Asset(asset_out)) => if !include_spot_price {
                    reply == Ok::<_, Stop<E>>(
                        QueryReplyView::ExactAssetIn { asset_out, spot_price: None },
                    )
                } else {
                    match (host.spot_price)(swap_operations) {
                        Ok(price) => reply == Ok::<_, Stop<E>>(
                            QueryReplyView::ExactAssetIn { asset_out, spot_price: Some(price) },
                        ),
                        Err(error) => reply == Err::<QueryReplyView, _>(
                            Stop::Refused(ContractError::Outside(error)),
                        ),
                    }
                },
                Ok(_) => false,
            }
        }),
{
    query_ends_with_its_reply(
        QueryMsgView::SimulateSwapExactAssetIn { asset_in, swap_operations },
        host,
    );
    query_ends_with_its_reply(
        QueryMsgView::SimulateSwapExactAssetInWithMetadata {
            asset_in,
            swap_operations,
            include_spot_price,
        },
        host,
    );
}

/// What an asset takes: refused for want of operations, and for its denom where
/// that is not what the last operation gives out; otherwise as the chain says.
pub proof fn what_an_asset_out_takes<E, K>(
    asset_out: AssetView,
    denom: Seq<char>,
    amount: nat,
    swap_operations: Seq<SwapOperationView>,
    host: QueryHost<E, K>,
)
    requires
        asset_out == AssetView::Native(CoinView { denom, amount }) || asset_out == AssetView::Cw20(
            Cw20CoinView { address: denom, amount },
        ),
    ensures
        ({
            let reply = outcome(
                query_step(QueryMsgView::SimulateSwapExactAssetOut { asset_out, swap_operations }),
                host,
            );
            let last = swap_operations[swap_operations.len() - 1];
            &&& reply == Err::<QueryReplyView, _>(
                Stop::<E>::Refused(ContractError::SwapOperationsEmpty),
            ) <==> swap_operations.len() == 0
            &&& reply == Err::<QueryReplyView, _>(
                Stop::<E>::Refused(ContractError::CoinOutDenomMismatch),
            ) <==> swap_operations.len() > 0 && denom != last.denom_out
            &&& swap_operations.len() > 0 && denom == last.denom_out ==> match (host.exact_out)(
                asset_out,
                swap_operations,
            ) {
                Ok(asset_in) => reply == Ok::<_, Stop<E>>(QueryReplyView::Asset(asset_in)),
                Err(error) => reply == Err::<QueryReplyView, _>(
                    Stop::Refused(ContractError::Outside(error)),
                ),
            }
        }),
{
    query_ends_with_its_reply(
        QueryMsgView::SimulateSwapExactAssetOut { asset_out, swap_operations },
        host,
    );
}

/// With metadata what an asset takes is answered with the asset that it is
/// answered with alone, and with the price exactly where that is wanted.
pub proof fn what_metadata_adds_to_an_asset_out<E, K>(
    asset_out: AssetView,
    swap_operations: Seq<SwapOperationView>,
    include_spot_price: bool,
    host: QueryHost<E, K>,
)
    ensures
        ({
            let alone = outcome(
                query_step(QueryMsgView::SimulateSwapExactAssetOut { asset_out, swap_operations }),
                host,
            );
            let reply = outcome(
                query_step(
                    QueryMsgView::SimulateSwapExactAssetOutWithMetadata {
                        asset_out,
                        swap_operations,
                        include_spot_price,
                    },
                ),
                host,
            );
            match alone {
                Err(stop) => reply == Err::<QueryReplyView, _>(stop),
                Ok(QueryReplyView::Asset(asset_in)) => if !include_spot_price {
                    reply == Ok::<_, Stop<E>>(
                        QueryReplyView::ExactAssetOut { asset_in, spot_price: None },
                    )
                } else {
                    match (host.spot_price)(swap_operations) {
                        Ok(price) => reply == Ok::<_, Stop<E>>(
                            QueryReplyView::ExactAssetOut { asset_in, spot_price: Some(price) },
                        ),
                        Err(error) => reply == Err::<QueryReplyView, _>(
                            Stop::Refused(ContractError::Outside(error)),
                        ),
                    }
                },
                Ok(_) => false,
            }
        }),
{
    query_ends_with_its_reply(
        QueryMsgView::SimulateSwapExactAssetOut { asset_out, swap_operations },
        host,
    );
    query_ends_with_its_reply(
        QueryMsgView::SimulateSwapExactAssetOutWithMetadata {
            asset_out,
            swap_operations,
            include_spot_price,
        },
        host,
    );
}

/// What is asked comes to the same, by itself or as a query.
pub proof fn what_is_asked_is_a_query<E, K>(
    asset: AssetView,
    swap_operations: Seq<SwapOperationView>,
    include_spot_price: bool,
    host: QueryHost<E, K>,
)
    ensures
        outcome(exact_in_step(asset, swap_operations, GoalView::Asset), host) == outcome(
            query_step(
                QueryMsgView::SimulateSwapExactAssetIn { asset_in: asset, swap_operations },
            ),
            host,
        ),
        outcome(
            exact_in_step(asset, swap_operations, GoalView::Metadata { include_spot_price }),
            host,
        ) == outcome(
            query_step(
                QueryMsgView::SimulateSwapExactAssetInWithMetadata {
                    asset_in: asset,
                    swap_operations,
                    include_spot_price,
                },
            ),
            host,
        ),
        outcome(exact_out_step(asset, swap_operations, None), host) == outcome(
            query_step(
                QueryMsgView::SimulateSwapExactAssetOut { asset_out: asset, swap_operations },
            ),
            host,
        ),
        outcome(exact_out_step(asset, swap_operations, Some(include_spot_price)), host) == outcome(
            query_step(
                QueryMsgView::SimulateSwapExactAssetOutWithMetadata {
                    asset_out: asset,
                    swap_operations,
                    include_spot_price,
                },
            ),
            host,
        ),
        swap_operations.len() > 0 ==> outcome(
            simulate_step(asset, swap_operations, GoalView::Asset),
            host,
        ) == outcome(
            query_step(alone(RouteView { offer_asset: asset, operations: swap_operations })),
            host,
        ),
        outcome(simulate_step(asset, seq![], GoalView::Asset), host) == (match host.router {
            Err(error) => Err::<QueryReplyView, _>(Stop::Refused(ContractError::Outside(error))),
            Ok(router) => match (host.simulate)(
                router,
                match asset {
                    AssetView::Native(coin) => coin.amount,
                    AssetView::Cw20(coin) => coin.amount,
                },
                seq![],
            ) {
                Err(error) => Err(Stop::Refused(ContractError::Outside(error))),
                Ok(_) => Err(Stop::Stuck),
            },
        }),
{
    reveal_with_fuel(outcome, 4);
}

/// The query for what one route gives alone, offered as much as the route is of
/// what its first operation takes in.
pub open spec fn alone(route: RouteView) -> QueryMsgView {
    QueryMsgView::SimulateSwapExactAssetIn {
        asset_in: AssetView::Native(
            CoinView {
                denom: route.operations[0].denom_in,
                amount: match route.offer_asset {
                    AssetView::Native(coin) => coin.amount,
                    AssetView::Cw20(coin) => coin.amount,
                },
            },
        ),
        swap_operations: route.operations,
    }
}

/// The first routes come to the sums of what they give.
proof fn lemma_sums<E, K>(
    routes: Seq<RouteView>,
    gives: Seq<AssetView>,
    sums: Seq<nat>,
    start: AssetView,
    n: int,
    host: QueryHost<E, K>,
)
    requires
        0 <= n <= routes.len(),
        n <= gives.len(),
        n < sums.len(),
        sums[0] == start.amount(),
        forall|i: int|
            0 <= i < n ==> {
                &&& #[trigger] routes[i].operations.len() > 0
                &&& outcome(query_step(alone(routes[i])), host) == Ok::<_, Stop<E>>(
                    QueryReplyView::Asset(gives[i]),
                )
                &&& sums[i + 1] == sums[i] + gives[i].amount()
                &&& sums[i + 1] <= u128::MAX
            },
    ensures
        host.total(start, routes.take(n)) == Ok::<_, Stop<E>>(start.with_amount(sums[n])),
    decreases n,
{
    if n == 0 {
        assert(start.with_amount(start.amount()) == start);
    } else {
        lemma_sums(routes, gives, sums, start, n - 1, host);
        assert(routes.take(n).drop_last() =~= routes.take(n - 1));
        assert(routes.take(n).last() == routes[n - 1]);
        query_ends_with_its_reply(alone(routes[n - 1]), host);
        assert(sums[n - 1 + 1] == sums[n]);
        assert(start.with_amount(sums[n - 1]).amount() == sums[n - 1]);
        assert(start.with_amount(sums[n - 1]).with_amount(sums[n]) == start.with_amount(sums[n]));
    }
}

/// A split swap gives, of the denom asked for, the sum of what its routes give
/// alone, each offered its own amount.
pub proof fn what_a_split_swap_gives<E, K>(
    routes: Seq<RouteView>,
    ask_denom: Seq<char>,
    gives: Seq<AssetView>,
    sums: Seq<nat>,
    host: QueryHost<E, K>,
)
    requires
        (host.ask_denom)(routes) == Ok::<_, E>(ask_denom),
        gives.len() == routes.len(),
        sums.len() == routes.len() + 1,
        sums[0] == (match (host.asset)(ask_denom, 0) {
            AssetView::Native(coin) => coin.amount,
            AssetView::Cw20(coin) => coin.amount,
        }),
        forall|i: int|
            0 <= i < routes.len() ==> {
                &&& #[trigger] routes[i].operations.len() > 0
                &&& outcome(query_step(alone(routes[i])), host) == Ok::<_, Stop<E>>(
                    QueryReplyView::Asset(gives[i]),
                )
                &&& sums[i + 1] == sums[i] + (match gives[i] {
                    AssetView::Native(coin) => coin.amount,
                    AssetView::Cw20(coin) => coin.amount,
                })
                &&& sums[i + 1] <= u128::MAX
            },
    ensures
        outcome(query_step(QueryMsgView::SimulateSmartSwapExactAssetIn { routes }), host) == Ok::<
            _,
            Stop<E>,
        >(
            QueryReplyView::Asset(
                match (host.asset)(ask_denom, 0) {
                    AssetView::Native(coin) => AssetView::Native(
                        CoinView { denom: coin.denom, amount: sums[routes.len() as int] },
                    ),
                    AssetView::Cw20(coin) => AssetView::Cw20(
                        Cw20CoinView { address: coin.address, amount: sums[routes.len() as int] },
                    ),
                },
            ),
        ),
{
    query_ends_with_its_reply(QueryMsgView::SimulateSmartSwapExactAssetIn { routes }, host);
    lemma_sums(routes, gives, sums, (host.asset)(ask_denom, 0), routes.len() as int, host);
    assert(routes.take(routes.len() as int) =~= routes);
}

/// A split swap fails with what the chain says where the denom asked for is not
/// known; otherwise with the first route that does not give anything alone, and
/// as that does, or with the first whose yield makes the sum exceed 128 bits.
pub proof fn why_a_split_swap_gives_nothing<E, K>(
    routes: Seq<RouteView>,
    gives: Seq<AssetView>,
    sums: Seq<nat>,
    n: int,
    host: QueryHost<E, K>,
)
    requires
        (host.ask_denom)(routes) matches Ok(ask_denom) ==> {
            &&& 0 <= n < routes.len()
            &&& gives.len() == n
            &&& sums.len() == n + 1
            &&& sums[0] == (match (host.asset)(ask_denom, 0) {
                AssetView::Native(coin) => coin.amount,
                AssetView::Cw20(coin) => coin.amount,
            })
            &&& forall|i: int|
                0 <= i < n ==> {
                    &&& #[trigger] routes[i].operations.len() > 0
                    &&& outcome(query_step(alone(routes[i])), host) == Ok::<_, Stop<E>>(
                        QueryReplyView::Asset(gives[i]),
                    )
                    &&& sums[i + 1] == sums[i] + (match gives[i] {
                        AssetView::Native(coin) => coin.amount,
                        AssetView::Cw20(coin) => coin.amount,
                    })
                    &&& sums[i + 1] <= u128::MAX
                }
        },
    ensures
        ({
            let reply = outcome(
                query_step(QueryMsgView::SimulateSmartSwapExactAssetIn { routes }),
                host,
            );
            let offered = match routes[n].offer_asset {
                AssetView::Native(coin) => coin.amount,
                AssetView::Cw20(coin) => coin.amount,
            };
            match (host.ask_denom)(routes) {
                Err(error) => reply == Err::<QueryReplyView, _>(
                    Stop::Refused(ContractError::Outside(error)),
                ),
                Ok(_) => if routes[n].operations.len() == 0 {
                    match host.router {
                        Err(error) => reply == Err::<QueryReplyView, _>(
                            Stop::Refused(ContractError::Outside(error)),
                        ),
                        Ok(router) => match (host.simulate)(router, offered, seq![]) {
                            Err(error) => reply == Err::<QueryReplyView, _>(
                                Stop::Refused(ContractError::Outside(error)),
                            ),
                            Ok(_) => reply == Err::<QueryReplyView, _>(Stop::<E>::Stuck),
                        },
                    }
                } else {
                    match outcome(query_step(alone(routes[n])), host) {
                        Err(stop) => reply == Err::<QueryReplyView, _>(stop),
                        Ok(QueryReplyView::Asset(given)) => sums[n] + (match given {
                            AssetView::Native(coin) => coin.amount,
                            AssetView::Cw20(coin) => coin.amount,
                        }) > u128::MAX ==> reply == Err::<QueryReplyView, _>(
                            Stop::<E>::Refused(ContractError::Overflow),
                        ),
                        Ok(_) => false,
                    }
                },
            }
        }),
{
    query_ends_with_its_reply(QueryMsgView::SimulateSmartSwapExactAssetIn { routes }, host);
    if let Ok(ask_denom) = (host.ask_denom)(routes) {
        let start = (host.asset)(ask_denom, 0);
        lemma_sums(routes, gives, sums, start, n, host);
        let next = routes.take(n + 1);
        assert(next.drop_last() =~= routes.take(n));
        assert(next.last() == routes[n]);
        assert(start.with_amount(sums[n]).amount() == sums[n]);
        query_ends_with_its_reply(alone(routes[n]), host);
        if host.total(start, next) is Err {
            lemma_total_error(host, start, routes, n + 1);
        }
    }
}

/// The first routes have the price that their parts sum up to.
proof fn lemma_prices<E, K>(
    routes: Seq<RouteView>,
    amount_in: nat,
    spots: Seq<nat>,
    prices: Seq<nat>,
    n: int,
    host: QueryHost<E, K>,
)
    requires
        0 <= n <= routes.len(),
        n <= spots.len(),
        n < prices.len(),
        prices[0] == 0,
        forall|i: int|
            0 <= i < n ==> {
                let weight = routes[i].offer_asset.amount() * 1_000_000_000_000_000_000nat
                    / amount_in;
                let part = spots[i] * weight / 1_000_000_000_000_000_000nat;
                &&& (host.spot_price)(#[trigger] routes[i].operations) == Ok::<_, E>(spots[i])
                &&& amount_in > 0
                &&& weight <= u128::MAX
                &&& part <= u128::MAX
                &&& prices[i + 1] == prices[i] + part
                &&& prices[i + 1] <= u128::MAX
            },
    ensures
        host.weighted_price(amount_in, routes.take(n)) == Ok::<_, Stop<E>>(prices[n]),
    decreases n,
{
    if n > 0 {
        lemma_prices(routes, amount_in, spots, prices, n - 1, host);
        assert(routes.take(n).drop_last() =~= routes.take(n - 1));
        assert(routes.take(n).last() == routes[n - 1]);
        assert((host.spot_price)(routes[n - 1].operations) == Ok::<_, E>(spots[n - 1]));
        assert(prices[n - 1 + 1] == prices[n]);
    }
}

/// With metadata a split swap is answered with the asset that it is answered
/// with alone. Where the price is wanted it is the sum, over the routes, of the
/// route's price times the part of the asset that the route is offered, each
/// rounded down to the eighteenth place; without routes it is zero.
pub proof fn what_metadata_adds_to_a_split_swap<E, K>(
    routes: Seq<RouteView>,
    asset_in: AssetView,
    denom: Seq<char>,
    amount_in: nat,
    asset_out: AssetView,
    spots: Seq<nat>,
    prices: Seq<nat>,
    host: QueryHost<E, K>,
)
    requires
        asset_in == AssetView::Native(CoinView { denom, amount: amount_in }) || asset_in
            == AssetView::Cw20(Cw20CoinView { address: denom, amount: amount_in }),
        outcome(query_step(QueryMsgView::SimulateSmartSwapExactAssetIn { routes }), host) == Ok::<
            _,
            Stop<E>,
        >(QueryReplyView::Asset(asset_out)),
        spots.len() == routes.len(),
        prices.len() == routes.len() + 1,
        prices[0] == 0,
        forall|i: int|
            0 <= i < routes.len() ==> {
                let offered = match routes[i].offer_asset {
                    AssetView::Native(coin) => coin.amount,
                    AssetView::Cw20(coin) => coin.amount,
                };
                let weight = offered * 1_000_000_000_000_000_000nat / amount_in;
                let part = spots[i] * weight / 1_000_000_000_000_000_000nat;
                &&& (host.spot_price)(#[trigger] routes[i].operations) == Ok::<_, E>(spots[i])
                &&& amount_in > 0
                &&& weight <= u128::MAX
                &&& part <= u128::MAX
                &&& prices[i + 1] == prices[i] + part
                &&& prices[i + 1] <= u128::MAX
            },
    ensures
        outcome(
            query_step(
                QueryMsgView::SimulateSmartSwapExactAssetInWithMetadata {
                    routes,
                    asset_in,
                    include_spot_price: true,
                },
            ),
            host,
        ) == Ok::<_, Stop<E>>(
            QueryReplyView::SmartExactAssetIn {
                asset_out,
                spot_price: Some(prices[routes.len() as int]),
            },
        ),
{
    query_ends_with_its_reply(QueryMsgView::SimulateSmartSwapExactAssetIn { routes }, host);
    query_ends_with_its_reply(
        QueryMsgView::SimulateSmartSwapExactAssetInWithMetadata {
            routes,
            asset_in,
            include_spot_price: true,
        },
        host,
    );
    lemma_prices(routes, amount_in, spots, prices, routes.len() as int, host);
    assert(routes.take(routes.len() as int) =~= routes);
}

/// With metadata but without the price, a split swap is answered as it is alone,
/// and one that fails alone fails so with metadata, whether the price is wanted
/// or not.
pub proof fn what_metadata_leaves_of_a_split_swap<E, K>(
    routes: Seq<RouteView>,
    asset_in: AssetView,
    include_spot_price: bool,
    host: QueryHost<E, K>,
)
    ensures
        ({
            let alone = outcome(
                query_step(QueryMsgView::SimulateSmartSwapExactAssetIn { routes }),
                host,
            );
            let reply = outcome(
                query_step(
                    QueryMsgView::SimulateSmartSwapExactAssetInWithMetadata {
                        routes,
                        asset_in,
                        include_spot_price,
                    },
                ),
                host,
            );
            match alone {
                Err(stop) => reply == Err::<QueryReplyView, _>(stop),
                Ok(QueryReplyView::Asset(asset_out)) => !include_spot_price ==> reply == Ok::<
                    _,
                    Stop<E>,
                >(QueryReplyView::SmartExactAssetIn { asset_out, spot_price: None }),
                Ok(_) => false,
            }
        }),
{
    query_ends_with_its_reply(QueryMsgView::SimulateSmartSwapExactAssetIn { routes }, host);
    query_ends_with_its_reply(
        QueryMsgView::SimulateSmartSwapExactAssetInWithMetadata {
            routes,
            asset_in,
            include_spot_price,
        },
        host,
    );
}

/// A price of a split swap that is wanted and cannot be had: the first route
/// whose price the chain does not give is answered with its error, and one whose
/// part cannot be worked out stops the query.
pub proof fn why_a_split_swap_has_no_price<E, K>(
    routes: Seq<RouteView>,
    asset_in: AssetView,
    denom: Seq<char>,
    amount_in: nat,
    asset_out: AssetView,
    spots: Seq<nat>,
    prices: Seq<nat>,
    n: int,
    host: QueryHost<E, K>,
)
    requires
        asset_in == AssetView::Native(CoinView { denom, amount: amount_in }) || asset_in
            == AssetView::Cw20(Cw20CoinView { address: denom, amount: amount_in }),
        outcome(query_step(QueryMsgView::SimulateSmartSwapExactAssetIn { routes }), host) == Ok::<
            _,
            Stop<E>,
        >(QueryReplyView::Asset(asset_out)),
        0 <= n < routes.len(),
        spots.len() == n,
        prices.len() == n + 1,
        prices[0] == 0,
        forall|i: int|
            0 <= i < n ==> {
                let offered = match routes[i].offer_asset {
                    AssetView::Native(coin) => coin.amount,
                    AssetView::Cw20(coin) => coin.amount,
                };
                let weight = offered * 1_000_000_000_000_000_000nat / amount_in;
                let part = spots[i] * weight / 1_000_000_000_000_000_000nat;
                &&& (host.spot_price)(#[trigger] routes[i].operations) == Ok::<_, E>(spots[i])
                &&& amount_in > 0
                &&& weight <= u128::MAX
                &&& part <= u128::MAX
                &&& prices[i + 1] == prices[i] + part
                &&& prices[i + 1] <= u128::MAX
            },
    ensures
        ({
            let reply = outcome(
                query_step(
                    QueryMsgView::SimulateSmartSwapExactAssetInWithMetadata {
                        routes,
                        asset_in,
                        include_spot_price: true,
                    },
                ),
                host,
            );
            let offered = match routes[n].offer_asset {
                AssetView::Native(coin) => coin.amount,
                AssetView::Cw20(coin) => coin.amount,
            };
            match (host.spot_price)(routes[n].operations) {
                Err(error) => reply == Err::<QueryReplyView, _>(
                    Stop::Refused(ContractError::Outside(error)),
                ),
                Ok(spot) => {
                    let weight = offered * 1_000_000_000_000_000_000nat / amount_in;
                    let part = spot * weight / 1_000_000_000_000_000_000nat;
                    amount_in == 0 || weight > u128::MAX || prices[n] + part > u128::MAX ==> reply
                        == Err::<QueryReplyView, _>(Stop::<E>::Stuck)
                },
            }
        }),
{
    query_ends_with_its_reply(QueryMsgView::SimulateSmartSwapExactAssetIn { routes }, host);
    query_ends_with_its_reply(
        QueryMsgView::SimulateSmartSwapExactAssetInWithMetadata {
            routes,
            asset_in,
            include_spot_price: true,
        },
        host,
    );
    lemma_prices(routes, amount_in, spots, prices, n, host);
    let next = routes.take(n + 1);
    assert(next.drop_last() =~= routes.take(n));
    assert(next.last() == routes[n]);
    if host.weighted_price(amount_in, next) is Err {
        lemma_price_error(host, amount_in, routes, n + 1);
    }
}

/// Each question is about what its step holds, and the query goes on with the
/// answer to that question alone.
pub proof fn what_the_chain_is_asked_of_a_query<E, K>(
    step: QueryStepView<E, K>,
    host: QueryHost<E, K>,
)
    requires
        step.well_formed(),
        step matches QueryStepView::Simulate(simulation) ==> simulation.operations.len() > 0,
    ensures
        match step {
            QueryStepView::Done(Ok(reply)) => outcome(step, host) == Ok::<_, Stop<E>>(reply),
            QueryStepView::Done(Err(error)) => outcome(step, host) == Err::<QueryReplyView, _>(
                Stop::Refused(error),
            ),
            QueryStepView::AskDenom(query) => outcome(step, host) == outcome(
                after_ask_denom(query, (host.ask_denom)(query.routes)),
                host,
            ),
            QueryStepView::EmptyAsset(start) => outcome(step, host) == outcome(
                smart_step(start.query, 0, (host.asset)(start.ask_denom, 0)),
                host,
            ),
            QueryStepView::LoadRouter(load) => outcome(step, host) == outcome(
                after_load_router(load, host.router),
                host,
            ),
            QueryStepView::PoolKey(simulation) => outcome(step, host) == outcome(
                after_pool_key(
                    simulation,
                    (host.pool_key)(simulation.operations[simulation.hops.len() as int].pool),
                ),
                host,
            ),
            QueryStepView::AssetInfos(simulation) => {
                let operation = simulation.operations[simulation.hops.len() as int];
                outcome(step, host) == outcome(
                    after_asset_infos(
                        simulation,
                        (host.asset_info)(operation.denom_in),
                        (host.asset_info)(operation.denom_out),
                    ),
                    host,
                )
            },
            QueryStepView::Simulate(simulation) => outcome(step, host) == outcome(
                after_simulate(
                    simulation,
                    (host.simulate)(simulation.router, simulation.offer_amount, simulation.hops),
                ),
                host,
            ),
            QueryStepView::NewAsset(yielded) => {
                let last = yielded.operations[yielded.operations.len() - 1];
                outcome(step, host) == outcome(
                    after_new_asset(yielded, (host.asset)(last.denom_out, yielded.amount)),
                    host,
                )
            },
            QueryStepView::ExactOut(exact_out) => outcome(step, host) == outcome(
                after_exact_out(
                    exact_out,
                    (host.exact_out)(exact_out.asset_out, exact_out.operations),
                ),
                host,
            ),
            QueryStepView::SpotPrice(price_of) => outcome(step, host) == outcome(
                after_spot_price(price_of, (host.spot_price)(price_of.operations)),
                host,
            ),
            QueryStepView::RouteSpotPrice(weighted) => ((host.spot_price)(
                weighted.routes[weighted.done as int].operations,
            ) matches Err(error) ==> outcome(step, host) == Err::<QueryReplyView, _>(
                Stop::Refused(ContractError::Outside(error)),
            )),
        },
{
    reveal_with_fuel(outcome, 2);
}

} // verus!
