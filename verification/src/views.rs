//! What contracts speak of is all that there is: the view of what comes in, goes
//! out or is asked holds each of its parts, and lists in their order.
use vstd::prelude::*;

use crate::asset::{coins_view, Asset, AssetView, Coin, CoinView, Cw20Coin, Cw20CoinView};
use crate::decimal::Decimal;
use crate::execute::state::{
    ExecuteStep, ExecuteStepView, Handover, Hook, PoolOffer, PoolSwap, Receipt, Received,
    SwapRequest,
};
use crate::hop::{
    hops_view, AssetInfo, AssetInfoView, HopView, OraidexSwapOperation, PoolKey, PoolKeyView,
};
use crate::instantiate::step::{
    EntryPointCheck, EntryPointSave, InstantiateMsg, InstantiateStep, InstantiateStepView, Naming,
    RouterCheck, RouterSave,
};
use crate::message::{
    Attribute, Cw20HookMsg, Cw20HookMsgView, Cw20ReceiveMsg, ExecuteMsg, ExecuteMsgView, Message,
    MessageInfo, MessageView, Response, WasmMsg,
};
use crate::operation::{operations_view, routes_view, Route, SwapOperation};
use crate::query::msg::{QueryMsg, QueryMsgView, QueryReply, QueryReplyView};
use crate::query::state::{
    ExactOut, PriceOf, QueryStep, QueryStepView, RouterLoad, Simulation, SmartQuery, SmartStart,
    WeightedPrice, Yield,
};

verus! {

/// An asset has the denom and the amount that it was made of, be it a coin or a
/// token, and in another amount it is the same but for that.
pub proof fn an_asset_is_a_denom_and_an_amount(denom: Seq<char>, amount: nat, other: nat)
    ensures
        AssetView::Native(CoinView { denom, amount }).denom() == denom,
        AssetView::Cw20(Cw20CoinView { address: denom, amount }).denom() == denom,
        AssetView::Native(CoinView { denom, amount }).amount() == amount,
        AssetView::Cw20(Cw20CoinView { address: denom, amount }).amount() == amount,
        AssetView::Native(CoinView { denom, amount }).with_amount(other) == AssetView::Native(
            CoinView { denom, amount: other },
        ),
        AssetView::Cw20(Cw20CoinView { address: denom, amount }).with_amount(other)
            == AssetView::Cw20(Cw20CoinView { address: denom, amount: other }),
{
}

/// Coins, tokens and prices are seen whole.
pub proof fn amounts_are_seen_whole(coin: Coin, token: Cw20Coin, price: Decimal)
    ensures
        Asset::Native(coin)@ == AssetView::Native(
            CoinView { denom: coin.denom@, amount: coin.amount as nat },
        ),
        Asset::Cw20(token)@ == AssetView::Cw20(
            Cw20CoinView { address: token.address@, amount: token.amount as nat },
        ),
        price@ == price.atomics,
{
}

/// Operations and routes are seen whole, as many as there are, in their order.
pub proof fn operations_are_seen_whole(
    operations: Seq<SwapOperation>,
    routes: Seq<Route>,
    coins: Seq<Coin>,
)
    ensures
        operations_view(operations).len() == operations.len(),
        forall|i: int|
            0 <= i < operations.len() ==> {
                let seen = #[trigger] operations_view(operations)[i];
                &&& seen.pool == operations[i].pool@
                &&& seen.denom_in == operations[i].denom_in@
                &&& seen.denom_out == operations[i].denom_out@
                &&& seen.rest == operations[i].rest@
            },
        routes_view(routes).len() == routes.len(),
        forall|i: int|
            0 <= i < routes.len() ==> {
                let seen = #[trigger] routes_view(routes)[i];
                &&& seen.offer_asset == routes[i].offer_asset@
                &&& seen.operations == operations_view(routes[i].operations@)
            },
        coins_view(coins).len() == coins.len(),
        forall|i: int|
            0 <= i < coins.len() ==> {
                let seen = #[trigger] coins_view(coins)[i];
                &&& seen.denom == coins[i].denom@
                &&& seen.amount == coins[i].amount
            },
{
}

/// Hops are seen whole, as many as there are, in their order.
pub proof fn hops_are_seen_whole<K>(hops: Seq<OraidexSwapOperation<K>>)
    ensures
        hops_view(hops).len() == hops.len(),
        forall|i: int|
            0 <= i < hops.len() ==> match hops[i] {
                OraidexSwapOperation::SwapV3 { pool_key, x_to_y } => #[trigger] hops_view(hops)[i]
                    == (HopView::SwapV3 {
                    pool_key: PoolKeyView { token_x: pool_key.token_x@, rest: pool_key.rest },
                    x_to_y,
                }),
                OraidexSwapOperation::OraiSwap { offer_asset_info, ask_asset_info } => hops_view(
                    hops,
                )[i] == (HopView::<K>::OraiSwap {
                    offer_asset_info: offer_asset_info@,
                    ask_asset_info: ask_asset_info@,
                }),
            },
{
}

/// The router's names of assets, and the keys of pools, are seen whole.
pub proof fn names_are_seen_whole<K>(text: String, key: PoolKey<K>)
    ensures
        (AssetInfo::Token { contract_addr: text })@ == (AssetInfoView::Token {
            contract_addr: text@,
        }),
        (AssetInfo::NativeToken { denom: text })@ == (AssetInfoView::NativeToken {
            denom: text@,
        }),
        key@.token_x == key.token_x@,
        key@.rest == key.rest,
{
}

/// Messages to the adapter are seen whole.
pub proof fn messages_are_seen_whole(
    info: MessageInfo,
    cw20_msg: Cw20ReceiveMsg,
    operations: Vec<SwapOperation>,
    operation: SwapOperation,
    swapper: String,
    return_denom: String,
    set_up: InstantiateMsg,
)
    ensures
        info@.sender == info.sender@,
        info@.funds == coins_view(info.funds@),
        cw20_msg@.sender == cw20_msg.sender@,
        cw20_msg@.amount == cw20_msg.amount,
        cw20_msg@.msg == cw20_msg.msg@,
        (Cw20HookMsg::Swap { operations })@ == (Cw20HookMsgView::Swap {
            operations: operations_view(operations@),
        }),
        ExecuteMsg::Receive(cw20_msg)@ == ExecuteMsgView::Receive(cw20_msg@),
        (ExecuteMsg::Swap { operations })@ == (ExecuteMsgView::Swap {
            operations: operations_view(operations@),
        }),
        (ExecuteMsg::TransferFundsBack { swapper, return_denom })@ == (
        ExecuteMsgView::TransferFundsBack { swapper: swapper@, return_denom: return_denom@ }),
        (ExecuteMsg::OraidexPoolSwap { operation })@ == (ExecuteMsgView::OraidexPoolSwap {
            operation: operation@,
        }),
        set_up@.entry_point_contract_address == set_up.entry_point_contract_address@,
        set_up@.oraidex_router_contract_address == set_up.oraidex_router_contract_address@,
{
}

/// What the adapter sends is seen whole: its messages and remarks, as many as
/// there are, in their order.
pub proof fn responses_are_seen_whole(
    response: Response,
    contract_addr: String,
    msg: ExecuteMsg,
    funds: Vec<Coin>,
    call: WasmMsg,
    attribute: Attribute,
)
    ensures
        response@.messages.len() == response.messages@.len(),
        forall|i: int|
            0 <= i < response.messages@.len() ==> #[trigger] response@.messages[i]
                == response.messages@[i]@,
        response@.attributes.len() == response.attributes@.len(),
        forall|i: int|
            0 <= i < response.attributes@.len() ==> #[trigger] response@.attributes[i]
                == response.attributes@[i]@,
        (Message::Execute { contract_addr, msg, funds })@ == (MessageView::Execute {
            contract_addr: contract_addr@,
            msg: msg@,
            funds: coins_view(funds@),
        }),
        Message::Wasm(call)@ == MessageView::Wasm(call@),
        call@.contract_addr == call.contract_addr@,
        call@.msg == call.msg@,
        call@.funds == coins_view(call.funds@),
        attribute@.key == attribute.key@,
        attribute@.value == attribute.value@,
{
}

/// Queries are seen whole.
pub proof fn queries_are_seen_whole(
    asset: Asset,
    operations: Vec<SwapOperation>,
    routes: Vec<Route>,
    include_spot_price: bool,
)
    ensures
        (QueryMsg::SimulateSwapExactAssetIn { asset_in: asset, swap_operations: operations })@ == (
        QueryMsgView::SimulateSwapExactAssetIn {
            asset_in: asset@,
            swap_operations: operations_view(operations@),
        }),
        (QueryMsg::SimulateSwapExactAssetOut { asset_out: asset, swap_operations: operations })@
            == (QueryMsgView::SimulateSwapExactAssetOut {
            asset_out: asset@,
            swap_operations: operations_view(operations@),
        }),
        (QueryMsg::SimulateSwapExactAssetInWithMetadata {
            asset_in: asset,
            swap_operations: operations,
            include_spot_price,
        })@ == (QueryMsgView::SimulateSwapExactAssetInWithMetadata {
            asset_in: asset@,
            swap_operations: operations_view(operations@),
            include_spot_price,
        }),
        (QueryMsg::SimulateSwapExactAssetOutWithMetadata {
            asset_out: asset,
            swap_operations: operations,
            include_spot_price,
        })@ == (QueryMsgView::SimulateSwapExactAssetOutWithMetadata {
            asset_out: asset@,
            swap_operations: operations_view(operations@),
            include_spot_price,
        }),
        (QueryMsg::SimulateSmartSwapExactAssetIn { routes })@ == (
        QueryMsgView::SimulateSmartSwapExactAssetIn { routes: routes_view(routes@) }),
        (QueryMsg::SimulateSmartSwapExactAssetInWithMetadata {
            routes,
            asset_in: asset,
            include_spot_price,
        })@ == (QueryMsgView::SimulateSmartSwapExactAssetInWithMetadata {
            routes: routes_view(routes@),
            asset_in: asset@,
            include_spot_price,
        }),
{
}

/// Replies are seen whole.
pub proof fn replies_are_seen_whole(asset: Asset, price: Decimal)
    ensures
        QueryReply::Asset(asset)@ == QueryReplyView::Asset(asset@),
        (QueryReply::ExactAssetIn { asset_out: asset, spot_price: Some(price) })@ == (
        QueryReplyView::ExactAssetIn { asset_out: asset@, spot_price: Some(price@) }),
        (QueryReply::ExactAssetIn { asset_out: asset, spot_price: None })@ == (
        QueryReplyView::ExactAssetIn { asset_out: asset@, spot_price: None }),
        (QueryReply::ExactAssetOut { asset_in: asset, spot_price: Some(price) })@ == (
        QueryReplyView::ExactAssetOut { asset_in: asset@, spot_price: Some(price@) }),
        (QueryReply::ExactAssetOut { asset_in: asset, spot_price: None })@ == (
        QueryReplyView::ExactAssetOut { asset_in: asset@, spot_price: None }),
        (QueryReply::SmartExactAssetIn { asset_out: asset, spot_price: Some(price) })@ == (
        QueryReplyView::SmartExactAssetIn { asset_out: asset@, spot_price: Some(price@) }),
        (QueryReply::SmartExactAssetIn { asset_out: asset, spot_price: None })@ == (
        QueryReplyView::SmartExactAssetIn { asset_out: asset@, spot_price: None }),
{
}

/// A step of a message is seen as the end or the question that it is, with what
/// the question is about.
pub proof fn steps_of_messages_are_seen_whole<E>(step: ExecuteStep<E>)
    ensures
        match step {
            ExecuteStep::Done(Ok(response)) => step@ == ExecuteStepView::<E>::Done(Ok(response@)),
            ExecuteStep::Done(Err(error)) => step@ == ExecuteStepView::<E>::Done(Err(error)),
            ExecuteStep::TransferFundsBack { swapper, return_denom } => step@ == (
            ExecuteStepView::<E>::TransferFundsBack {
                swapper: swapper@,
                return_denom: return_denom@,
            }),
            ExecuteStep::ValidateAsset(Receipt { contract, info, asset, cw20_msg }) => {
                &&& step@ matches ExecuteStepView::ValidateAsset(seen)
                &&& seen.contract == contract@
                &&& seen.info == info@
                &&& seen.asset == asset@
                &&& seen.cw20_msg == cw20_msg@
            },
            ExecuteStep::ValidateSender(Received { contract, cw20_msg }) => {
                &&& step@ matches ExecuteStepView::ValidateSender(seen)
                &&& seen.contract == contract@
                &&& seen.cw20_msg == cw20_msg@
            },
            ExecuteStep::ParseHook(Hook { contract, sender, msg }) => {
                &&& step@ matches ExecuteStepView::ParseHook(seen)
                &&& seen.contract == contract@
                &&& seen.sender == sender@
                &&& seen.msg == msg@
            },
            ExecuteStep::LoadEntryPoint(SwapRequest { contract, sender, operations }) => {
                &&& step@ matches ExecuteStepView::LoadEntryPoint(seen)
                &&& seen.contract == contract@
                &&& seen.sender == sender@
                &&& seen.operations == operations_view(operations@)
            },
            ExecuteStep::CurrentAsset(PoolSwap { operation }) => {
                &&& step@ matches ExecuteStepView::CurrentAsset(seen)
                &&& seen.operation == operation@
            },
            ExecuteStep::SwapMsg(PoolOffer { operation, offer_asset }) => {
                &&& step@ matches ExecuteStepView::SwapMsg(seen)
                &&& seen.operation == operation@
                &&& seen.offer_asset == offer_asset@
            },
            ExecuteStep::IntoWasmMsg(Handover { offer_asset, swap_msg }) => {
                &&& step@ matches ExecuteStepView::IntoWasmMsg(seen)
                &&& seen.offer_asset == offer_asset@
                &&& seen.swap_msg.contract_addr == swap_msg.contract_addr@
                &&& seen.swap_msg.msg == swap_msg.msg@
            },
        },
{
}

/// A step of setting up is seen as the end or the request that it is, with what
/// the request is about.
pub proof fn steps_of_setting_up_are_seen_whole<E>(step: InstantiateStep<E>)
    ensures
        match step {
            InstantiateStep::Done(Ok(response)) => step@ == InstantiateStepView::<E>::Done(
                Ok(response@),
            ),
            InstantiateStep::Done(Err(error)) => step@ == InstantiateStepView::<E>::Done(
                Err(error),
            ),
            InstantiateStep::SetContractVersion(Naming { name, version, msg }) => {
                &&& step@ matches InstantiateStepView::SetContractVersion(seen)
                &&& seen.name == name@
                &&& seen.version == version@
                &&& seen.msg == msg@
            },
            InstantiateStep::ValidateEntryPoint(EntryPointCheck { msg }) => {
                &&& step@ matches InstantiateStepView::ValidateEntryPoint(seen)
                &&& seen.msg == msg@
            },
            InstantiateStep::ValidateRouter(RouterCheck { entry_point, input }) => {
                &&& step@ matches InstantiateStepView::ValidateRouter(seen)
                &&& seen.entry_point == entry_point@
                &&& seen.input == input@
            },
            InstantiateStep::SaveEntryPoint(EntryPointSave { entry_point, router }) => {
                &&& step@ matches InstantiateStepView::SaveEntryPoint(seen)
                &&& seen.entry_point == entry_point@
                &&& seen.router == router@
            },
            InstantiateStep::SaveRouter(RouterSave { entry_point, router }) => {
                &&& step@ matches InstantiateStepView::SaveRouter(seen)
                &&& seen.entry_point == entry_point@
                &&& seen.router == router@
            },
        },
{
}

/// A step of a query is seen as the reply or the question that it is, with what
/// the question is about.
pub proof fn steps_of_queries_are_seen_whole<E, K>(step: QueryStep<E, K>)
    ensures
        match step {
            QueryStep::Done(Ok(reply)) => step@ == QueryStepView::<E, K>::Done(Ok(reply@)),
            QueryStep::Done(Err(error)) => step@ == QueryStepView::<E, K>::Done(Err(error)),
            QueryStep::AskDenom(SmartQuery { routes, .. }) => {
                &&& step@ matches QueryStepView::AskDenom(seen)
                &&& seen.routes == routes_view(routes@)
            },
            QueryStep::EmptyAsset(SmartStart { ask_denom, .. }) => {
                &&& step@ matches QueryStepView::EmptyAsset(seen)
                &&& seen.ask_denom == ask_denom@
            },
            QueryStep::LoadRouter(RouterLoad { offer_amount, operations, .. }) => {
                &&& step@ matches QueryStepView::LoadRouter(seen)
                &&& seen.offer_amount == offer_amount
                &&& seen.operations == operations_view(operations@)
            },
            QueryStep::PoolKey(Simulation { operations, hops, .. }) => {
                &&& step@ matches QueryStepView::PoolKey(seen)
                &&& seen.operations == operations_view(operations@)
                &&& seen.hops == hops_view(hops@)
            },
            QueryStep::AssetInfos(Simulation { operations, hops, .. }) => {
                &&& step@ matches QueryStepView::AssetInfos(seen)
                &&& seen.operations == operations_view(operations@)
                &&& seen.hops == hops_view(hops@)
            },
            QueryStep::Simulate(Simulation { router, offer_amount, operations, hops, .. }) => {
                &&& step@ matches QueryStepView::Simulate(seen)
                &&& seen.router == router@
                &&& seen.offer_amount == offer_amount
                &&& seen.operations == operations_view(operations@)
                &&& seen.hops == hops_view(hops@)
            },
            QueryStep::NewAsset(Yield { amount, operations, .. }) => {
                &&& step@ matches QueryStepView::NewAsset(seen)
                &&& seen.amount == amount
                &&& seen.operations == operations_view(operations@)
            },
            QueryStep::ExactOut(ExactOut { asset_out, operations, .. }) => {
                &&& step@ matches QueryStepView::ExactOut(seen)
                &&& seen.asset_out == asset_out@
                &&& seen.operations == operations_view(operations@)
            },
            QueryStep::SpotPrice(PriceOf { operations, asset, fixed }) => {
                &&& step@ matches QueryStepView::SpotPrice(seen)
                &&& seen.operations == operations_view(operations@)
                &&& seen.asset == asset@
                &&& seen.fixed == fixed
            },
            QueryStep::RouteSpotPrice(
                WeightedPrice { routes, done, asset_in, asset_out, price },
            ) => {
                &&& step@ matches QueryStepView::RouteSpotPrice(seen)
                &&& seen.routes == routes_view(routes@)
                &&& seen.done == done
                &&& seen.asset_in == asset_in@
                &&& seen.asset_out == asset_out@
                &&& seen.price == price.atomics
            },
        },
{
}

} // verus!
