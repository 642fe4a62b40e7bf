//! From a query to its first step, and from an answer to the next.
use vstd::prelude::*;

use crate::asset::{Asset, AssetView};
use crate::decimal::{product, ratio, Decimal};
use crate::error::{seen, ContractError};
use crate::hop::{
    hops_view, swap_v3, v3_hop, AssetInfo, AssetInfoView, HopView, OraidexSwapOperation, PoolKey,
    PoolKeyView,
};
use crate::operation::{
    copy_operations, operations_view, routes_view, Route, SwapOperation, SwapOperationView,
};
use crate::query::msg::{QueryMsg, QueryMsgView, QueryReply, QueryReplyView};
use crate::query::state::{
    ExactOut, ExactOutView, Goal, GoalView, PriceOf, PriceOfView, QueryStep, QueryStepView,
    RouterLoad, RouterLoadView, Side, Simulation, SimulationView, SmartMetadata, SmartMetadataView,
    SmartQuery, SmartQueryView, SmartStart, SmartStartView, WeightedPrice, WeightedPriceView, Yield,
    YieldView,
};

verus! {

/// The query ends with an error that came from outside.
pub open spec fn failed<E, K>(error: E) -> QueryStepView<E, K> {
    QueryStepView::Done(Err(ContractError::Outside(error)))
}

/// The first step of simulating one route: the router has to be found.
pub open spec fn simulate_step<E, K>(
    asset_in: AssetView,
    operations: Seq<SwapOperationView>,
    goal: GoalView,
) -> QueryStepView<E, K> {
    QueryStepView::LoadRouter(
        RouterLoadView { offer_amount: asset_in.amount(), operations, goal },
    )
}

/// The first step of finding what `asset_in` gives.
pub open spec fn exact_in_step<E, K>(
    asset_in: AssetView,
    swap_operations: Seq<SwapOperationView>,
    goal: GoalView,
) -> QueryStepView<E, K> {
    if swap_operations.len() == 0 {
        QueryStepView::Done(Err(ContractError::SwapOperationsEmpty))
    } else if asset_in.denom() != swap_operations.first().denom_in {
        QueryStepView::Done(Err(ContractError::CoinInDenomMismatch))
    } else {
        simulate_step(asset_in, swap_operations, goal)
    }
}

/// The first step of finding what `asset_out` takes.
pub open spec fn exact_out_step<E, K>(
    asset_out: AssetView,
    swap_operations: Seq<SwapOperationView>,
    include_spot_price: Option<bool>,
) -> QueryStepView<E, K> {
    if swap_operations.len() == 0 {
        QueryStepView::Done(Err(ContractError::SwapOperationsEmpty))
    } else if asset_out.denom() != swap_operations.last().denom_out {
        QueryStepView::Done(Err(ContractError::CoinOutDenomMismatch))
    } else {
        QueryStepView::ExactOut(
            ExactOutView { asset_out, operations: swap_operations, include_spot_price },
        )
    }
}

/// The first step of a query.
pub open spec fn query_step<E, K>(msg: QueryMsgView) -> QueryStepView<E, K> {
    match msg {
        QueryMsgView::SimulateSwapExactAssetIn { asset_in, swap_operations } => exact_in_step(
            asset_in,
            swap_operations,
            GoalView::Asset,
        ),
        QueryMsgView::SimulateSwapExactAssetOut { asset_out, swap_operations } => exact_out_step(
            asset_out,
            swap_operations,
            None,
        ),
        QueryMsgView::SimulateSwapExactAssetInWithMetadata {
            asset_in,
            swap_operations,
            include_spot_price,
        } => exact_in_step(asset_in, swap_operations, GoalView::Metadata { include_spot_price }),
        QueryMsgView::SimulateSwapExactAssetOutWithMetadata {
            asset_out,
            swap_operations,
            include_spot_price,
        } => exact_out_step(asset_out, swap_operations, Some(include_spot_price)),
        QueryMsgView::SimulateSmartSwapExactAssetIn { routes } => QueryStepView::AskDenom(
            SmartQueryView { routes, metadata: None },
        ),
        QueryMsgView::SimulateSmartSwapExactAssetInWithMetadata {
            routes,
            asset_in,
            include_spot_price,
        } => QueryStepView::AskDenom(
            SmartQueryView {
                routes,
                metadata: Some(SmartMetadataView { asset_in, include_spot_price }),
            },
        ),
    }
}

/// The first step of a query.
pub fn query<E, K>(msg: QueryMsg) -> (step: QueryStep<E, K>)
    ensures
        step@ == query_step::<E, K>(msg@),
{
    match msg {
        QueryMsg::SimulateSwapExactAssetIn { asset_in, swap_operations } => {
            query_simulate_swap_exact_asset_in(asset_in, swap_operations)
        },
        QueryMsg::SimulateSwapExactAssetOut { asset_out, swap_operations } => {
            query_simulate_swap_exact_asset_out(asset_out, swap_operations)
        },
        QueryMsg::SimulateSwapExactAssetInWithMetadata {
            asset_in,
            swap_operations,
            include_spot_price,
        } => query_simulate_swap_exact_asset_in_with_metadata(
            asset_in,
            swap_operations,
            include_spot_price,
        ),
        QueryMsg::SimulateSwapExactAssetOutWithMetadata {
            asset_out,
            swap_operations,
            include_spot_price,
        } => query_simulate_swap_exact_asset_out_with_metadata(
            asset_out,
            swap_operations,
            include_spot_price,
        ),
        QueryMsg::SimulateSmartSwapExactAssetIn { routes } => QueryStep::AskDenom(
            SmartQuery { routes, metadata: None },
        ),
        QueryMsg::SimulateSmartSwapExactAssetInWithMetadata {
            routes,
            asset_in,
            include_spot_price,
        } => QueryStep::AskDenom(
            SmartQuery { routes, metadata: Some(SmartMetadata { asset_in, include_spot_price }) },
        ),
    }
}

/// What `asset_in` gives.
pub fn query_simulate_swap_exact_asset_in<E, K>(
    asset_in: Asset,
    swap_operations: Vec<SwapOperation>,
) -> (step: QueryStep<E, K>)
    ensures
        step@ == exact_in_step::<E, K>(
            asset_in@,
            operations_view(swap_operations@),
            GoalView::Asset,
        ),
{
    check_asset_in(asset_in, swap_operations, Goal::Asset)
}

/// What `asset_in` gives and, if wanted, at which price.
pub fn query_simulate_swap_exact_asset_in_with_metadata<E, K>(
    asset_in: Asset,
    swap_operations: Vec<SwapOperation>,
    include_spot_price: bool,
) -> (step: QueryStep<E, K>)
    ensures
        step@ == exact_in_step::<E, K>(
            asset_in@,
            operations_view(swap_operations@),
            GoalView::Metadata { include_spot_price },
        ),
{
    check_asset_in(asset_in, swap_operations, Goal::Metadata { include_spot_price })
}

/// Simulates what `asset_in` gives, if it is what the first operation takes in.
fn check_asset_in<E, K>(asset_in: Asset, swap_operations: Vec<SwapOperation>, goal: Goal) -> (step:
    QueryStep<E, K>)
    ensures
        step@ == exact_in_step::<E, K>(asset_in@, operations_view(swap_operations@), goal@),
{
    if swap_operations.len() == 0 {
        return QueryStep::Done(Err(ContractError::SwapOperationsEmpty));
    }
    if *asset_in.denom() != swap_operations[0].denom_in {
        return QueryStep::Done(Err(ContractError::CoinInDenomMismatch));
    }
    simulate_swap_exact_asset_in(asset_in, swap_operations, goal)
}

/// Simulates one route.
pub fn simulate_swap_exact_asset_in<E, K>(
    asset_in: Asset,
    operations: Vec<SwapOperation>,
    goal: Goal,
) -> (step: QueryStep<E, K>)
    ensures
        step@ == simulate_step::<E, K>(asset_in@, operations_view(operations@), goal@),
{
    QueryStep::LoadRouter(RouterLoad { offer_amount: asset_in.amount(), operations, goal })
}

/// What `asset_out` takes.
pub fn query_simulate_swap_exact_asset_out<E, K>(
    asset_out: Asset,
    swap_operations: Vec<SwapOperation>,
) -> (step: QueryStep<E, K>)
    ensures
        step@ == exact_out_step::<E, K>(asset_out@, operations_view(swap_operations@), None),
{
    check_asset_out(asset_out, swap_operations, None)
}

/// What `asset_out` takes and, if wanted, at which price.
pub fn query_simulate_swap_exact_asset_out_with_metadata<E, K>(
    asset_out: Asset,
    swap_operations: Vec<SwapOperation>,
    include_spot_price: bool,
) -> (step: QueryStep<E, K>)
    ensures
        step@ == exact_out_step::<E, K>(
            asset_out@,
            operations_view(swap_operations@),
            Some(include_spot_price),
        ),
{
    check_asset_out(asset_out, swap_operations, Some(include_spot_price))
}

/// Asks what `asset_out` takes, if it is what the last operation gives out.
fn check_asset_out<E, K>(
    asset_out: Asset,
    swap_operations: Vec<SwapOperation>,
    include_spot_price: Option<bool>,
) -> (step: QueryStep<E, K>)
    ensures
        step@ == exact_out_step::<E, K>(
            asset_out@,
            operations_view(swap_operations@),
            include_spot_price,
        ),
{
    if swap_operations.len() == 0 {
        return QueryStep::Done(Err(ContractError::SwapOperationsEmpty));
    }
    if *asset_out.denom() != swap_operations[swap_operations.len() - 1].denom_out {
        return QueryStep::Done(Err(ContractError::CoinOutDenomMismatch));
    }
    QueryStep::ExactOut(ExactOut { asset_out, operations: swap_operations, include_spot_price })
}

/// The step after the denom that the routes give out is known.
pub open spec fn after_ask_denom<E, K>(
    query: SmartQueryView,
    answer: Result<Seq<char>, E>,
) -> QueryStepView<E, K> {
    match answer {
        Ok(ask_denom) => QueryStepView::EmptyAsset(SmartStartView { ask_denom, query }),
        Err(error) => failed(error),
    }
}

impl SmartQuery {
    /// Takes the denom that the routes give out.
    pub fn resume<E, K>(self, answer: Result<String, E>) -> (step: QueryStep<E, K>)
        ensures
            step@ == after_ask_denom::<E, K>(self@, seen(answer)),
    {
        match answer {
            Ok(ask_denom) => match self.metadata {
                None => query_simulate_smart_swap_exact_asset_in(ask_denom, self.routes),
                Some(metadata) => query_simulate_smart_swap_exact_asset_in_with_metadata(
                    metadata.asset_in,
                    ask_denom,
                    self.routes,
                    metadata.include_spot_price,
                ),
            },
            Err(error) => QueryStep::Done(Err(ContractError::Outside(error))),
        }
    }
}

/// What the routes give together of `ask_denom`.
pub fn query_simulate_smart_swap_exact_asset_in<E, K>(
    ask_denom: String,
    routes: Vec<Route>,
) -> (step: QueryStep<E, K>)
    ensures
        step@ == QueryStepView::<E, K>::EmptyAsset(
            SmartStartView {
                ask_denom: ask_denom@,
                query: SmartQueryView { routes: routes_view(routes@), metadata: None },
            },
        ),
{
    QueryStep::EmptyAsset(
        SmartStart { ask_denom, query: SmartQuery { routes, metadata: None } },
    )
}

/// What the routes give together of `ask_denom` and, if wanted, at which price
/// for `asset_in`.
pub fn query_simulate_smart_swap_exact_asset_in_with_metadata<E, K>(
    asset_in: Asset,
    ask_denom: String,
    routes: Vec<Route>,
    include_spot_price: bool,
) -> (step: QueryStep<E, K>)
    ensures
        step@ == QueryStepView::<E, K>::EmptyAsset(
            SmartStartView {
                ask_denom: ask_denom@,
                query: SmartQueryView {
                    routes: routes_view(routes@),
                    metadata: Some(
                        SmartMetadataView { asset_in: asset_in@, include_spot_price },
                    ),
                },
            },
        ),
{
    QueryStep::EmptyAsset(
        SmartStart {
            ask_denom,
            query: SmartQuery {
                routes,
                metadata: Some(SmartMetadata { asset_in, include_spot_price }),
            },
        },
    )
}

/// The step once `asset_out` is the yield of the first `done` routes: simulate
/// the next one, or go on to the reply.
pub open spec fn smart_step<E, K>(
    query: SmartQueryView,
    done: nat,
    asset_out: AssetView,
) -> QueryStepView<E, K> {
    if done < query.routes.len() {
        simulate_step(
            query.routes[done as int].offer_asset,
            query.routes[done as int].operations,
            GoalView::Smart { query, done, asset_out },
        )
    } else {
        match query.metadata {
            None => QueryStepView::Done(Ok(QueryReplyView::Asset(asset_out))),
            Some(metadata) => if metadata.include_spot_price {
                price_step(
                    WeightedPriceView {
                        routes: query.routes,
                        done: 0,
                        asset_in: metadata.asset_in,
                        asset_out,
                        price: 0,
                    },
                )
            } else {
                QueryStepView::Done(
                    Ok(QueryReplyView::SmartExactAssetIn { asset_out, spot_price: None }),
                )
            },
        }
    }
}

/// The step once the price of the first routes is known: ask for that of the
/// next one, or reply.
pub open spec fn price_step<E, K>(weighted: WeightedPriceView) -> QueryStepView<E, K> {
    if weighted.done < weighted.routes.len() {
        QueryStepView::RouteSpotPrice(weighted)
    } else {
        QueryStepView::Done(
            Ok(
                QueryReplyView::SmartExactAssetIn {
                    asset_out: weighted.asset_out,
                    spot_price: Some(weighted.price),
                },
            ),
        )
    }
}

/// Simulates the next route, or goes on to the reply.
pub fn simulate_smart_swap_exact_asset_in<E, K>(
    query: SmartQuery,
    done: usize,
    asset_out: Asset,
) -> (step: QueryStep<E, K>)
    ensures
        step@ == smart_step::<E, K>(query@, done as nat, asset_out@),
{
    if done < query.routes.len() {
        let offer_asset = query.routes[done].offer_asset.clone();
        let operations = copy_operations(&query.routes[done].operations);
        return simulate_swap_exact_asset_in(
            offer_asset,
            operations,
            Goal::Smart { query, done, asset_out },
        );
    }
    match query.metadata {
        None => QueryStep::Done(Ok(QueryReply::Asset(asset_out))),
        Some(metadata) => {
            if metadata.include_spot_price {
                calculate_weighted_spot_price(
                    WeightedPrice {
                        routes: query.routes,
                        done: 0,
                        asset_in: metadata.asset_in,
                        asset_out,
                        price: Decimal::zero(),
                    },
                )
            } else {
                QueryStep::Done(Ok(QueryReply::SmartExactAssetIn { asset_out, spot_price: None }))
            }
        },
    }
}

/// Asks for the price of the next route, or replies.
pub fn calculate_weighted_spot_price<E, K>(weighted: WeightedPrice) -> (step: QueryStep<E, K>)
    ensures
        step@ == price_step::<E, K>(weighted@),
{
    if weighted.done < weighted.routes.len() {
        QueryStep::RouteSpotPrice(weighted)
    } else {
        QueryStep::Done(
            Ok(
                QueryReply::SmartExactAssetIn {
                    asset_out: weighted.asset_out,
                    spot_price: Some(weighted.price),
                },
            ),
        )
    }
}

impl SmartStart {
    /// Takes a zero amount of the asset that the routes give out.
    pub fn resume<E, K>(self, answer: Asset) -> (step: QueryStep<E, K>)
        ensures
            step@ == smart_step::<E, K>(self@.query, 0, answer@),
    {
        simulate_smart_swap_exact_asset_in(self.query, 0, answer)
    }
}

/// The step once some hops are known: ask what the next one needs, or have them
/// simulated.
pub open spec fn simulation_step<E, K>(simulation: SimulationView<K>) -> QueryStepView<E, K> {
    if simulation.hops.len() >= simulation.operations.len() {
        QueryStepView::Simulate(simulation)
    } else if simulation.operation().is_v3() {
        QueryStepView::PoolKey(simulation)
    } else {
        QueryStepView::AssetInfos(simulation)
    }
}

/// The step after the address of the router is known.
pub open spec fn after_load_router<E, K>(
    load: RouterLoadView,
    answer: Result<Seq<char>, E>,
) -> QueryStepView<E, K> {
    match answer {
        Ok(router) => simulation_step(
            SimulationView {
                router,
                offer_amount: load.offer_amount,
                operations: load.operations,
                hops: seq![],
                goal: load.goal,
            },
        ),
        Err(error) => failed(error),
    }
}

impl RouterLoad {
    /// Takes the address of the router.
    pub fn resume<E, K>(self, answer: Result<String, E>) -> (step: QueryStep<E, K>)
        ensures
            step@ == after_load_router::<E, K>(self@, seen(answer)),
    {
        match answer {
            Ok(router) => {
                let hops: Vec<OraidexSwapOperation<K>> = Vec::new();
                assert(hops_view(hops@) =~= seq![]);
                next_hop(
                    Simulation {
                        router,
                        offer_amount: self.offer_amount,
                        operations: self.operations,
                        hops,
                        goal: self.goal,
                    },
                )
            },
            Err(error) => QueryStep::Done(Err(ContractError::Outside(error))),
        }
    }
}

/// Asks what the next hop needs, or has the hops simulated.
fn next_hop<E, K>(simulation: Simulation<K>) -> (step: QueryStep<E, K>)
    ensures
        step@ == simulation_step::<E, K>(simulation@),
{
    if simulation.hops.len() >= simulation.operations.len() {
        QueryStep::Simulate(simulation)
    } else if simulation.operations[simulation.hops.len()].is_v3() {
        QueryStep::PoolKey(simulation)
    } else {
        QueryStep::AssetInfos(simulation)
    }
}

/// The step after the pool key of the next operation is known.
pub open spec fn after_pool_key<E, K>(
    simulation: SimulationView<K>,
    answer: Result<PoolKeyView<K>, E>,
) -> QueryStepView<E, K> {
    match answer {
        Ok(pool_key) => simulation_step(
            simulation.with_hop(v3_hop(simulation.operation(), pool_key)),
        ),
        Err(error) => failed(error),
    }
}

/// The step after the router's names of the next operation's assets are known.
pub open spec fn after_asset_infos<E, K>(
    simulation: SimulationView<K>,
    offer_asset_info: AssetInfoView,
    ask_asset_info: AssetInfoView,
) -> QueryStepView<E, K> {
    simulation_step(simulation.with_hop(HopView::OraiSwap { offer_asset_info, ask_asset_info }))
}

/// The step after the router has simulated the hops.
pub open spec fn after_simulate<E, K>(
    simulation: SimulationView<K>,
    answer: Result<nat, E>,
) -> QueryStepView<E, K> {
    match answer {
        Ok(amount) => QueryStepView::NewAsset(
            YieldView { amount, operations: simulation.operations, goal: simulation.goal },
        ),
        Err(error) => failed(error),
    }
}

/// The view of an amount that was asked for.
pub open spec fn amount_seen<E>(answer: Result<u128, E>) -> Result<nat, E> {
    match answer {
        Ok(amount) => Ok(amount as nat),
        Err(error) => Err(error),
    }
}

impl<K> Simulation<K> {
    /// Takes the key of the next operation's pool.
    pub fn resume_pool_key<E>(self, answer: Result<PoolKey<K>, E>) -> (step: QueryStep<E, K>)
        requires
            self@.hops.len() < self@.operations.len(),
        ensures
            step@ == after_pool_key::<E, K>(self@, seen(answer)),
    {
        match answer {
            Ok(pool_key) => {
                let hop = swap_v3(&self.operations[self.hops.len()], pool_key);
                self.push_hop(hop)
            },
            Err(error) => QueryStep::Done(Err(ContractError::Outside(error))),
        }
    }

    /// Takes the router's names of what the next operation takes in and gives
    /// out.
    pub fn resume_asset_infos<E>(
        self,
        offer_asset_info: AssetInfo,
        ask_asset_info: AssetInfo,
    ) -> (step: QueryStep<E, K>)
        requires
            self@.hops.len() < self@.operations.len(),
        ensures
            step@ == after_asset_infos::<E, K>(self@, offer_asset_info@, ask_asset_info@),
    {
        self.push_hop(OraidexSwapOperation::OraiSwap { offer_asset_info, ask_asset_info })
    }

    fn push_hop<E>(self, hop: OraidexSwapOperation<K>) -> (step: QueryStep<E, K>)
        ensures
            step@ == simulation_step::<E, K>(self@.with_hop(hop@)),
    {
        let mut simulation = self;
        simulation.hops.push(hop);
        assert(hops_view(simulation.hops@) =~= hops_view(self.hops@).push(hop@));
        next_hop(simulation)
    }

    /// Takes the amount that the router says the hops give. Without operations
    /// there is no denom to give it, so only an error can be taken then.
    pub fn resume_simulate<E>(self, answer: Result<u128, E>) -> (step: QueryStep<E, K>)
        requires
            answer is Ok ==> self@.operations.len() > 0,
        ensures
            step@ == after_simulate::<E, K>(self@, amount_seen(answer)),
    {
        match answer {
            Ok(amount) => QueryStep::NewAsset(
                Yield { amount, operations: self.operations, goal: self.goal },
            ),
            Err(error) => QueryStep::Done(Err(ContractError::Outside(error))),
        }
    }
}

/// The step after an asset was made of what a route gives.
pub open spec fn after_new_asset<E, K>(
    yielded: YieldView,
    asset: AssetView,
) -> QueryStepView<E, K> {
    match yielded.goal {
        GoalView::Asset => QueryStepView::Done(Ok(QueryReplyView::Asset(asset))),
        GoalView::Metadata { include_spot_price } => if include_spot_price {
            QueryStepView::SpotPrice(
                PriceOfView { operations: yielded.operations, asset, fixed: Side::In },
            )
        } else {
            QueryStepView::Done(
                Ok(QueryReplyView::ExactAssetIn { asset_out: asset, spot_price: None }),
            )
        },
        GoalView::Smart { query, done, asset_out } => {
            let total = asset_out.amount() + asset.amount();
            if total > u128::MAX {
                QueryStepView::Done(Err(ContractError::Overflow))
            } else {
                smart_step(query, one_more(done, query.routes.len()), asset_out.with_amount(total))
            }
        },
    }
}

/// One more than `done`, but no more than there are.
pub open spec fn one_more(done: nat, there_are: nat) -> nat {
    if done < there_are {
        done + 1
    } else {
        there_are
    }
}

impl Yield {
    /// The denom of what the route gives out.
    pub fn denom(&self) -> (denom: &String)
        requires
            self@.operations.len() > 0,
        ensures
            denom@ == self@.denom(),
    {
        &self.operations[self.operations.len() - 1].denom_out
    }

    /// Takes the asset that was made of what the route gives.
    pub fn resume<E, K>(self, answer: Asset) -> (step: QueryStep<E, K>)
        ensures
            step@ == after_new_asset::<E, K>(self@, answer@),
    {
        match self.goal {
            Goal::Asset => QueryStep::Done(Ok(QueryReply::Asset(answer))),
            Goal::Metadata { include_spot_price } => {
                if include_spot_price {
                    QueryStep::SpotPrice(
                        PriceOf { operations: self.operations, asset: answer, fixed: Side::In },
                    )
                } else {
                    QueryStep::Done(
                        Ok(QueryReply::ExactAssetIn { asset_out: answer, spot_price: None }),
                    )
                }
            },
            Goal::Smart { query, done, asset_out } => {
                let mut asset_out = asset_out;
                match asset_out.add(answer.amount()) {
                    None => QueryStep::Done(Err(ContractError::Overflow)),
                    Some(_) => {
                        let done = if done < query.routes.len() {
                            done + 1
                        } else {
                            query.routes.len()
                        };
                        simulate_smart_swap_exact_asset_in(query, done, asset_out)
                    },
                }
            },
        }
    }
}

/// The step after what has to go in is known.
pub open spec fn after_exact_out<E, K>(
    exact_out: ExactOutView,
    answer: Result<AssetView, E>,
) -> QueryStepView<E, K> {
    match answer {
        Err(error) => failed(error),
        Ok(asset_in) => match exact_out.include_spot_price {
            None => QueryStepView::Done(Ok(QueryReplyView::Asset(asset_in))),
            Some(false) => QueryStepView::Done(
                Ok(QueryReplyView::ExactAssetOut { asset_in, spot_price: None }),
            ),
            Some(true) => QueryStepView::SpotPrice(
                PriceOfView {
                    operations: exact_out.operations,
                    asset: asset_in,
                    fixed: Side::Out,
                },
            ),
        },
    }
}

impl ExactOut {
    /// Takes what has to go in.
    pub fn resume<E, K>(self, answer: Result<Asset, E>) -> (step: QueryStep<E, K>)
        ensures
            step@ == after_exact_out::<E, K>(self@, seen(answer)),
    {
        match answer {
            Err(error) => QueryStep::Done(Err(ContractError::Outside(error))),
            Ok(asset_in) => match self.include_spot_price {
                None => QueryStep::Done(Ok(QueryReply::Asset(asset_in))),
                Some(false) => QueryStep::Done(
                    Ok(QueryReply::ExactAssetOut { asset_in, spot_price: None }),
                ),
                Some(true) => QueryStep::SpotPrice(
                    PriceOf { operations: self.operations, asset: asset_in, fixed: Side::Out },
                ),
            },
        }
    }
}

/// The step after the price of a swap is known.
pub open spec fn after_spot_price<E, K>(
    price_of: PriceOfView,
    answer: Result<nat, E>,
) -> QueryStepView<E, K> {
    match answer {
        Err(error) => failed(error),
        Ok(price) => QueryStepView::Done(
            Ok(
                match price_of.fixed {
                    Side::In => QueryReplyView::ExactAssetIn {
                        asset_out: price_of.asset,
                        spot_price: Some(price),
                    },
                    Side::Out => QueryReplyView::ExactAssetOut {
                        asset_in: price_of.asset,
                        spot_price: Some(price),
                    },
                },
            ),
        ),
    }
}

impl PriceOf {
    /// Takes the price.
    pub fn resume<E, K>(self, answer: Result<Decimal, E>) -> (step: QueryStep<E, K>)
        ensures
            step@ == after_spot_price::<E, K>(self@, seen(answer)),
    {
        match answer {
            Err(error) => QueryStep::Done(Err(ContractError::Outside(error))),
            Ok(price) => match self.fixed {
                Side::In => QueryStep::Done(
                    Ok(
                        QueryReply::ExactAssetIn {
                            asset_out: self.asset,
                            spot_price: Some(price),
                        },
                    ),
                ),
                Side::Out => QueryStep::Done(
                    Ok(
                        QueryReply::ExactAssetOut {
                            asset_in: self.asset,
                            spot_price: Some(price),
                        },
                    ),
                ),
            },
        }
    }
}

/// What a route adds to the weighted price: its own price times the part of
/// the total that it is offered.
pub open spec fn contribution(price: nat, offered: nat, total: nat) -> nat {
    product(price, ratio(offered, total))
}

/// Whether a contribution can be worked out and added to `price_so_far`.
pub open spec fn can_contribute(price_so_far: nat, price: nat, offered: nat, total: nat) -> bool {
    &&& total != 0
    &&& ratio(offered, total) <= u128::MAX
    &&& contribution(price, offered, total) <= u128::MAX
    &&& price_so_far + contribution(price, offered, total) <= u128::MAX
}

/// `price_so_far` with the contribution of one more route, or `None` where it
/// cannot be worked out.
pub fn contribute(price_so_far: Decimal, price: Decimal, offered: u128, total: u128) -> (result:
    Option<Decimal>)
    ensures
        result is Some <==> can_contribute(price_so_far@, price@, offered as nat, total as nat),
        result is Some ==> result->0@ == price_so_far@ + contribution(
            price@,
            offered as nat,
            total as nat,
        ),
        total == 0 ==> result is None,
        total > 0 ==> ({
            let weight = offered as nat * 1_000_000_000_000_000_000 / total as nat;
            let part = price.atomics as nat * weight / 1_000_000_000_000_000_000;
            let sum = price_so_far.atomics as nat + part;
            &&& result is Some <==> weight <= u128::MAX && sum <= u128::MAX
            &&& result is Some ==> result->0.atomics == sum
        }),
{
    match Decimal::checked_from_ratio(offered, total) {
        None => None,
        Some(weight) => match price.checked_mul(weight) {
            None => None,
            Some(contribution) => price_so_far.checked_add(contribution),
        },
    }
}

impl WeightedPriceView {
    /// The amount that the next route is offered.
    pub open spec fn offered(self) -> nat {
        self.routes[self.done as int].offer_asset.amount()
    }

    /// Whether there is a next route, and `answer` can be taken as its price.
    pub open spec fn accepts<E>(self, answer: Result<nat, E>) -> bool {
        &&& self.done < self.routes.len()
        &&& answer is Ok ==> can_contribute(
            self.price,
            answer->Ok_0,
            self.offered(),
            self.asset_in.amount(),
        )
    }
}

/// The step after the price of the next route is known.
pub open spec fn after_route_spot_price<E, K>(
    weighted: WeightedPriceView,
    answer: Result<nat, E>,
) -> QueryStepView<E, K> {
    match answer {
        Err(error) => failed(error),
        Ok(price) => price_step(
            WeightedPriceView {
                done: weighted.done + 1,
                price: weighted.price + contribution(
                    price,
                    weighted.offered(),
                    weighted.asset_in.amount(),
                ),
                ..weighted
            },
        ),
    }
}

impl WeightedPrice {
    /// Whether there is a next route, and `answer` can be taken as its price:
    /// the asset that is split is not zero, and the weighted price fits.
    pub fn accepts<E>(&self, answer: &Result<Decimal, E>) -> (accepted: bool)
        ensures
            accepted == self@.accepts(seen(*answer)),
    {
        self.done < self.routes.len() && match answer {
            Err(_) => true,
            Ok(price) => contribute(
                self.price,
                *price,
                self.routes[self.done].offer_asset.amount(),
                self.asset_in.amount(),
            ).is_some(),
        }
    }

    /// Takes the price of the next route, if it is accepted.
    pub fn resume<E, K>(self, answer: Result<Decimal, E>) -> (step: QueryStep<E, K>)
        requires
            self@.accepts(seen(answer)),
        ensures
            step@ == after_route_spot_price::<E, K>(self@, seen(answer)),
    {
        match answer {
            Err(error) => QueryStep::Done(Err(ContractError::Outside(error))),
            Ok(price) => {
                let offered = self.routes[self.done].offer_asset.amount();
                assert(self.done < self.routes.len());
                let sum = contribute(self.price, price, offered, self.asset_in.amount());
                calculate_weighted_spot_price(
                    WeightedPrice {
                        routes: self.routes,
                        done: self.done + 1,
                        asset_in: self.asset_in,
                        asset_out: self.asset_out,
                        price: sum.unwrap(),
                    },
                )
            },
        }
    }
}

} // verus!
