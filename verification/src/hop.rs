//! Hops: what the router is asked to simulate, one for each swap operation.
use vstd::prelude::*;

use crate::operation::{SwapOperation, SwapOperationView};

verus! {

/// An asset as the router names it.
#[derive(Debug, PartialEq, Eq)]
pub enum AssetInfo {
    Token { contract_addr: String },
    NativeToken { denom: String },
}

#[verifier::ext_equal]
pub enum AssetInfoView {
    Token { contract_addr: Seq<char> },
    NativeToken { denom: Seq<char> },
}

impl View for AssetInfo {
    type V = AssetInfoView;

    open spec fn view(&self) -> AssetInfoView {
        match self {
            AssetInfo::Token { contract_addr } => AssetInfoView::Token {
                contract_addr: contract_addr@,
            },
            AssetInfo::NativeToken { denom } => AssetInfoView::NativeToken { denom: denom@ },
        }
    }
}

/// The key of a concentrated liquidity pool. Of its two tokens one is `x`; what
/// else identifies the pool is carried along in `rest`, unread.
#[derive(Debug, PartialEq, Eq)]
pub struct PoolKey<K> {
    pub token_x: String,
    pub rest: K,
}

#[verifier::ext_equal]
pub struct PoolKeyView<K> {
    pub token_x: Seq<char>,
    pub rest: K,
}

impl<K> View for PoolKey<K> {
    type V = PoolKeyView<K>;

    open spec fn view(&self) -> PoolKeyView<K> {
        PoolKeyView { token_x: self.token_x@, rest: self.rest }
    }
}

/// One hop of a simulation.
#[derive(Debug, PartialEq, Eq)]
pub enum OraidexSwapOperation<K> {
    /// Through a concentrated liquidity pool, from its token `x` or to it.
    SwapV3 { pool_key: PoolKey<K>, x_to_y: bool },
    /// Through the pair pool of two assets.
    OraiSwap { offer_asset_info: AssetInfo, ask_asset_info: AssetInfo },
}

#[verifier::ext_equal]
pub enum HopView<K> {
    SwapV3 { pool_key: PoolKeyView<K>, x_to_y: bool },
    OraiSwap { offer_asset_info: AssetInfoView, ask_asset_info: AssetInfoView },
}

impl<K> View for OraidexSwapOperation<K> {
    type V = HopView<K>;

    open spec fn view(&self) -> HopView<K> {
        match self {
            OraidexSwapOperation::SwapV3 { pool_key, x_to_y } => HopView::SwapV3 {
                pool_key: pool_key@,
                x_to_y: *x_to_y,
            },
            OraidexSwapOperation::OraiSwap { offer_asset_info, ask_asset_info } => {
                HopView::OraiSwap {
                    offer_asset_info: offer_asset_info@,
                    ask_asset_info: ask_asset_info@,
                }
            },
        }
    }
}

/// The views of a list of hops, one by one.
pub open spec fn hops_view<K>(hops: Seq<OraidexSwapOperation<K>>) -> Seq<HopView<K>> {
    Seq::new(hops.len(), |i: int| hops[i]@)
}

/// The hop of `operation` through the pool of `pool_key`: it goes from `x` if
/// that is what the operation takes in.
pub open spec fn v3_hop<K>(operation: SwapOperationView, pool_key: PoolKeyView<K>) -> HopView<K> {
    HopView::SwapV3 { pool_key, x_to_y: pool_key.token_x == operation.denom_in }
}

/// The hop of `operation` through the pool of `pool_key`.
pub fn swap_v3<K>(operation: &SwapOperation, pool_key: PoolKey<K>) -> (hop: OraidexSwapOperation<
    K,
>)
    ensures
        hop@ == v3_hop(operation@, pool_key@),
        hop matches OraidexSwapOperation::SwapV3 { pool_key: key, x_to_y } && key@ == pool_key@ && (
        x_to_y <==> pool_key.token_x@ == operation.denom_in@),
{
    let x_to_y = pool_key.token_x == operation.denom_in;
    OraidexSwapOperation::SwapV3 { pool_key, x_to_y }
}

} // verus!
