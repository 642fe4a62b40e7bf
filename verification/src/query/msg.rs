//! What can be asked, and what is replied.
use vstd::prelude::*;

use crate::asset::{Asset, AssetView};
use crate::decimal::Decimal;
use crate::operation::{
    operations_view, routes_view, Route, RouteView, SwapOperation, SwapOperationView,
};

verus! {

/// What can be asked of the adapter without changing anything.
#[derive(Debug, PartialEq, Eq)]
pub enum QueryMsg {
    SimulateSwapExactAssetIn { asset_in: Asset, swap_operations: Vec<SwapOperation> },
    SimulateSwapExactAssetOut { asset_out: Asset, swap_operations: Vec<SwapOperation> },
    SimulateSwapExactAssetInWithMetadata {
        asset_in: Asset,
        swap_operations: Vec<SwapOperation>,
        include_spot_price: bool,
    },
    SimulateSwapExactAssetOutWithMetadata {
        asset_out: Asset,
        swap_operations: Vec<SwapOperation>,
        include_spot_price: bool,
    },
    SimulateSmartSwapExactAssetIn { routes: Vec<Route> },
    SimulateSmartSwapExactAssetInWithMetadata {
        routes: Vec<Route>,
        asset_in: Asset,
        include_spot_price: bool,
    },
}

#[verifier::ext_equal]
pub enum QueryMsgView {
    SimulateSwapExactAssetIn { asset_in: AssetView, swap_operations: Seq<SwapOperationView> },
    SimulateSwapExactAssetOut { asset_out: AssetView, swap_operations: Seq<SwapOperationView> },
    SimulateSwapExactAssetInWithMetadata {
        asset_in: AssetView,
        swap_operations: Seq<SwapOperationView>,
        include_spot_price: bool,
    },
    SimulateSwapExactAssetOutWithMetadata {
        asset_out: AssetView,
        swap_operations: Seq<SwapOperationView>,
        include_spot_price: bool,
    },
    SimulateSmartSwapExactAssetIn { routes: Seq<RouteView> },
    SimulateSmartSwapExactAssetInWithMetadata {
        routes: Seq<RouteView>,
        asset_in: AssetView,
        include_spot_price: bool,
    },
}

impl View for QueryMsg {
    type V = QueryMsgView;

    open spec fn view(&self) -> QueryMsgView {
        match self {
            QueryMsg::SimulateSwapExactAssetIn {
                asset_in,
                swap_operations,
            } => QueryMsgView::SimulateSwapExactAssetIn {
                asset_in: asset_in@,
                swap_operations: operations_view(swap_operations@),
            },
            QueryMsg::SimulateSwapExactAssetOut {
                asset_out,
                swap_operations,
            } => QueryMsgView::SimulateSwapExactAssetOut {
                asset_out: asset_out@,
                swap_operations: operations_view(swap_operations@),
            },
            QueryMsg::SimulateSwapExactAssetInWithMetadata {
                asset_in,
                swap_operations,
                include_spot_price,
            } => QueryMsgView::SimulateSwapExactAssetInWithMetadata {
                asset_in: asset_in@,
                swap_operations: operations_view(swap_operations@),
                include_spot_price: *include_spot_price,
            },
            QueryMsg::SimulateSwapExactAssetOutWithMetadata {
                asset_out,
                swap_operations,
                include_spot_price,
            } => QueryMsgView::SimulateSwapExactAssetOutWithMetadata {
                asset_out: asset_out@,
                swap_operations: operations_view(swap_operations@),
                include_spot_price: *include_spot_price,
            },
            QueryMsg::SimulateSmartSwapExactAssetIn {
                routes,
            } => QueryMsgView::SimulateSmartSwapExactAssetIn { routes: routes_view(routes@) },
            QueryMsg::SimulateSmartSwapExactAssetInWithMetadata {
                routes,
                asset_in,
                include_spot_price,
            } => QueryMsgView::SimulateSmartSwapExactAssetInWithMetadata {
                routes: routes_view(routes@),
                asset_in: asset_in@,
                include_spot_price: *include_spot_price,
            },
        }
    }
}

/// What a query is answered.
#[derive(Debug, PartialEq, Eq)]
pub enum QueryReply {
    /// The asset that comes out, or that has to go in.
    Asset(Asset),
    ExactAssetIn { asset_out: Asset, spot_price: Option<Decimal> },
    ExactAssetOut { asset_in: Asset, spot_price: Option<Decimal> },
    SmartExactAssetIn { asset_out: Asset, spot_price: Option<Decimal> },
}

#[verifier::ext_equal]
pub enum QueryReplyView {
    Asset(AssetView),
    ExactAssetIn { asset_out: AssetView, spot_price: Option<nat> },
    ExactAssetOut { asset_in: AssetView, spot_price: Option<nat> },
    SmartExactAssetIn { asset_out: AssetView, spot_price: Option<nat> },
}

/// The view of a price, if there is one.
pub open spec fn price_view(price: Option<Decimal>) -> Option<nat> {
    match price {
        Some(price) => Some(price@),
        None => None,
    }
}

impl View for QueryReply {
    type V = QueryReplyView;

    open spec fn view(&self) -> QueryReplyView {
        match self {
            QueryReply::Asset(asset) => QueryReplyView::Asset(asset@),
            QueryReply::ExactAssetIn { asset_out, spot_price } => QueryReplyView::ExactAssetIn {
                asset_out: asset_out@,
                spot_price: price_view(*spot_price),
            },
            QueryReply::ExactAssetOut { asset_in, spot_price } => QueryReplyView::ExactAssetOut {
                asset_in: asset_in@,
                spot_price: price_view(*spot_price),
            },
            QueryReply::SmartExactAssetIn { asset_out, spot_price } => {
                QueryReplyView::SmartExactAssetIn {
                    asset_out: asset_out@,
                    spot_price: price_view(*spot_price),
                }
            },
        }
    }
}

} // verus!
