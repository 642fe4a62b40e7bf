//! The steps on the way to a reply, and what is known at each.
use vstd::prelude::*;

use crate::asset::{Asset, AssetView};
use crate::decimal::Decimal;
use crate::error::{seen, ContractError};
use crate::hop::{hops_view, HopView, OraidexSwapOperation};
use crate::operation::{
    operations_view, routes_view, Route, RouteView, SwapOperation, SwapOperationView,
};
use crate::query::msg::{QueryReply, QueryReplyView};

verus! {

/// What goes with the reply to a swap that is split over routes: the asset that
/// is split, and whether the price is wanted.
#[derive(Debug, PartialEq, Eq)]
pub struct SmartMetadata {
    pub asset_in: Asset,
    pub include_spot_price: bool,
}

#[verifier::ext_equal]
pub struct SmartMetadataView {
    pub asset_in: AssetView,
    pub include_spot_price: bool,
}

impl View for SmartMetadata {
    type V = SmartMetadataView;

    open spec fn view(&self) -> SmartMetadataView {
        SmartMetadataView {
            asset_in: self.asset_in@,
            include_spot_price: self.include_spot_price,
        }
    }
}

/// A swap split over routes.
#[derive(Debug, PartialEq, Eq)]
pub struct SmartQuery {
    pub routes: Vec<Route>,
    pub metadata: Option<SmartMetadata>,
}

#[verifier::ext_equal]
pub struct SmartQueryView {
    pub routes: Seq<RouteView>,
    pub metadata: Option<SmartMetadataView>,
}

impl View for SmartQuery {
    type V = SmartQueryView;

    open spec fn view(&self) -> SmartQueryView {
        SmartQueryView {
            routes: routes_view(self.routes@),
            metadata: match self.metadata {
                Some(metadata) => Some(metadata@),
                None => None,
            },
        }
    }
}

/// What a simulated route is wanted for.
#[derive(Debug, PartialEq, Eq)]
pub enum Goal {
    /// To reply with the asset that comes out.
    Asset,
    /// To reply with that asset and, if wanted, with the price.
    Metadata { include_spot_price: bool },
    /// To add what comes out to `asset_out`, the yield of the first `done`
    /// routes of `query`.
    Smart { query: SmartQuery, done: usize, asset_out: Asset },
}

#[verifier::ext_equal]
pub enum GoalView {
    Asset,
    Metadata { include_spot_price: bool },
    Smart { query: SmartQueryView, done: nat, asset_out: AssetView },
}

impl View for Goal {
    type V = GoalView;

    open spec fn view(&self) -> GoalView {
        match self {
            Goal::Asset => GoalView::Asset,
            Goal::Metadata { include_spot_price } => GoalView::Metadata {
                include_spot_price: *include_spot_price,
            },
            Goal::Smart { query, done, asset_out } => GoalView::Smart {
                query: query@,
                done: *done as nat,
                asset_out: asset_out@,
            },
        }
    }
}

/// Before the yield of the routes is summed up: an empty amount of the asset
/// that they give out is needed to start from.
#[derive(Debug, PartialEq, Eq)]
pub struct SmartStart {
    pub ask_denom: String,
    pub query: SmartQuery,
}

#[verifier::ext_equal]
pub struct SmartStartView {
    pub ask_denom: Seq<char>,
    pub query: SmartQueryView,
}

impl View for SmartStart {
    type V = SmartStartView;

    open spec fn view(&self) -> SmartStartView {
        SmartStartView { ask_denom: self.ask_denom@, query: self.query@ }
    }
}

/// Before a route is simulated: the address of the router is needed.
#[derive(Debug, PartialEq, Eq)]
pub struct RouterLoad {
    pub offer_amount: u128,
    pub operations: Vec<SwapOperation>,
    pub goal: Goal,
}

#[verifier::ext_equal]
pub struct RouterLoadView {
    pub offer_amount: nat,
    pub operations: Seq<SwapOperationView>,
    pub goal: GoalView,
}

impl View for RouterLoad {
    type V = RouterLoadView;

    open spec fn view(&self) -> RouterLoadView {
        RouterLoadView {
            offer_amount: self.offer_amount as nat,
            operations: operations_view(self.operations@),
            goal: self.goal@,
        }
    }
}

/// A simulation being put together: `hops` holds the hops of the first
/// operations, as many as there are.
#[derive(Debug, PartialEq, Eq)]
pub struct Simulation<K> {
    pub router: String,
    pub offer_amount: u128,
    pub operations: Vec<SwapOperation>,
    pub hops: Vec<OraidexSwapOperation<K>>,
    pub goal: Goal,
}

#[verifier::ext_equal]
pub struct SimulationView<K> {
    pub router: Seq<char>,
    pub offer_amount: nat,
    pub operations: Seq<SwapOperationView>,
    pub hops: Seq<HopView<K>>,
    pub goal: GoalView,
}

impl<K> View for Simulation<K> {
    type V = SimulationView<K>;

    open spec fn view(&self) -> SimulationView<K> {
        SimulationView {
            router: self.router@,
            offer_amount: self.offer_amount as nat,
            operations: operations_view(self.operations@),
            hops: hops_view(self.hops@),
            goal: self.goal@,
        }
    }
}

impl<K> SimulationView<K> {
    /// The operation whose hop comes next.
    pub open spec fn operation(self) -> SwapOperationView {
        self.operations[self.hops.len() as int]
    }

    /// The same simulation with one hop more.
    pub open spec fn with_hop(self, hop: HopView<K>) -> SimulationView<K> {
        SimulationView { hops: self.hops.push(hop), ..self }
    }
}

/// After a route is simulated: the amount has to become an asset.
#[derive(Debug, PartialEq, Eq)]
pub struct Yield {
    pub amount: u128,
    pub operations: Vec<SwapOperation>,
    pub goal: Goal,
}

#[verifier::ext_equal]
pub struct YieldView {
    pub amount: nat,
    pub operations: Seq<SwapOperationView>,
    pub goal: GoalView,
}

impl View for Yield {
    type V = YieldView;

    open spec fn view(&self) -> YieldView {
        YieldView {
            amount: self.amount as nat,
            operations: operations_view(self.operations@),
            goal: self.goal@,
        }
    }
}

impl YieldView {
    /// What the route gives out: the output of its last operation.
    pub open spec fn denom(self) -> Seq<char> {
        self.operations.last().denom_out
    }
}

/// What has to go in for an asset to come out. `include_spot_price` is there
/// where the reply is to carry metadata.
#[derive(Debug, PartialEq, Eq)]
pub struct ExactOut {
    pub asset_out: Asset,
    pub operations: Vec<SwapOperation>,
    pub include_spot_price: Option<bool>,
}

#[verifier::ext_equal]
pub struct ExactOutView {
    pub asset_out: AssetView,
    pub operations: Seq<SwapOperationView>,
    pub include_spot_price: Option<bool>,
}

impl View for ExactOut {
    type V = ExactOutView;

    open spec fn view(&self) -> ExactOutView {
        ExactOutView {
            asset_out: self.asset_out@,
            operations: operations_view(self.operations@),
            include_spot_price: self.include_spot_price,
        }
    }
}

/// Which side of a swap was fixed by the query.
#[derive(Debug, Clone, Copy, PartialEq, Eq)]
pub enum Side {
    In,
    Out,
}

/// The price of a swap is wanted; `asset` is what was found of its other side.
#[derive(Debug, PartialEq, Eq)]
pub struct PriceOf {
    pub operations: Vec<SwapOperation>,
    pub asset: Asset,
    pub fixed: Side,
}

#[verifier::ext_equal]
pub struct PriceOfView {
    pub operations: Seq<SwapOperationView>,
    pub asset: AssetView,
    pub fixed: Side,
}

impl View for PriceOf {
    type V = PriceOfView;

    open spec fn view(&self) -> PriceOfView {
        PriceOfView {
            operations: operations_view(self.operations@),
            asset: self.asset@,
            fixed: self.fixed,
        }
    }
}

/// The price of a split swap being summed up: `price` is the weighted price of
/// the first `done` routes.
#[derive(Debug, PartialEq, Eq)]
pub struct WeightedPrice {
    pub routes: Vec<Route>,
    pub done: usize,
    pub asset_in: Asset,
    pub asset_out: Asset,
    pub price: Decimal,
}

#[verifier::ext_equal]
pub struct WeightedPriceView {
    pub routes: Seq<RouteView>,
    pub done: nat,
    pub asset_in: AssetView,
    pub asset_out: AssetView,
    pub price: nat,
}

impl View for WeightedPrice {
    type V = WeightedPriceView;

    open spec fn view(&self) -> WeightedPriceView {
        WeightedPriceView {
            routes: routes_view(self.routes@),
            done: self.done as nat,
            asset_in: self.asset_in@,
            asset_out: self.asset_out@,
            price: self.price@,
        }
    }
}

/// A step on the way to a reply.
#[derive(Debug, PartialEq, Eq)]
pub enum QueryStep<E, K> {
    /// The reply.
    Done(Result<QueryReply, ContractError<E>>),
    /// Which denom do the routes give out?
    AskDenom(SmartQuery),
    /// Which asset is a zero amount of `ask_denom`?
    EmptyAsset(SmartStart),
    /// What is the address of the router?
    LoadRouter(RouterLoad),
    /// Which pool key does the pool of the next operation stand for?
    PoolKey(Simulation<K>),
    /// How does the router name the two assets of the next operation?
    AssetInfos(Simulation<K>),
    /// What does the router say that the hops give for the amount offered?
    Simulate(Simulation<K>),
    /// Which asset is `amount` of what the last operation gives out?
    NewAsset(Yield),
    /// What has to go in for `asset_out` to come out?
    ExactOut(ExactOut),
    /// What is the price over the operations?
    SpotPrice(PriceOf),
    /// What is the price over the operations of the next route?
    RouteSpotPrice(WeightedPrice),
}

#[verifier::ext_equal]
pub enum QueryStepView<E, K> {
    Done(Result<QueryReplyView, ContractError<E>>),
    AskDenom(SmartQueryView),
    EmptyAsset(SmartStartView),
    LoadRouter(RouterLoadView),
    PoolKey(SimulationView<K>),
    AssetInfos(SimulationView<K>),
    Simulate(SimulationView<K>),
    NewAsset(YieldView),
    ExactOut(ExactOutView),
    SpotPrice(PriceOfView),
    RouteSpotPrice(WeightedPriceView),
}

impl<E, K> View for QueryStep<E, K> {
    type V = QueryStepView<E, K>;

    open spec fn view(&self) -> QueryStepView<E, K> {
        match self {
            QueryStep::Done(reply) => QueryStepView::Done(seen(*reply)),
            QueryStep::AskDenom(state) => QueryStepView::AskDenom(state@),
            QueryStep::EmptyAsset(state) => QueryStepView::EmptyAsset(state@),
            QueryStep::LoadRouter(state) => QueryStepView::LoadRouter(state@),
            QueryStep::PoolKey(state) => QueryStepView::PoolKey(state@),
            QueryStep::AssetInfos(state) => QueryStepView::AssetInfos(state@),
            QueryStep::Simulate(state) => QueryStepView::Simulate(state@),
            QueryStep::NewAsset(state) => QueryStepView::NewAsset(state@),
            QueryStep::ExactOut(state) => QueryStepView::ExactOut(state@),
            QueryStep::SpotPrice(state) => QueryStepView::SpotPrice(state@),
            QueryStep::RouteSpotPrice(state) => QueryStepView::RouteSpotPrice(state@),
        }
    }
}

impl GoalView {
    /// Whether a route of `operations` serves the goal: of a split swap, it is
    /// the route that is next.
    pub open spec fn is_served_by(self, operations: Seq<SwapOperationView>) -> bool {
        match self {
            GoalView::Smart { query, done, .. } => {
                &&& done < query.routes.len()
                &&& operations == query.routes[done as int].operations
            },
            _ => operations.len() > 0,
        }
    }
}

impl<E, K> QueryStepView<E, K> {
    /// Whether the question fits what is known: there is a next operation or a
    /// next route where one is asked about, and it is of the kind asked about.
    pub open spec fn well_formed(self) -> bool {
        match self {
            QueryStepView::LoadRouter(load) => load.goal.is_served_by(load.operations),
            QueryStepView::PoolKey(simulation) => {
                &&& simulation.goal.is_served_by(simulation.operations)
                &&& simulation.hops.len() < simulation.operations.len()
                &&& simulation.operation().is_v3()
            },
            QueryStepView::AssetInfos(simulation) => {
                &&& simulation.goal.is_served_by(simulation.operations)
                &&& simulation.hops.len() < simulation.operations.len()
                &&& !simulation.operation().is_v3()
            },
            QueryStepView::Simulate(simulation) => {
                &&& simulation.goal.is_served_by(simulation.operations)
                &&& simulation.hops.len() == simulation.operations.len()
            },
            QueryStepView::NewAsset(yielded) => {
                &&& yielded.goal.is_served_by(yielded.operations)
                &&& yielded.operations.len() > 0
            },
            QueryStepView::ExactOut(exact_out) => exact_out.operations.len() > 0,
            QueryStepView::SpotPrice(price_of) => price_of.operations.len() > 0,
            QueryStepView::RouteSpotPrice(weighted) => weighted.done < weighted.routes.len(),
            _ => true,
        }
    }
}

} // verus!
