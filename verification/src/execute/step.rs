//! From a message to its first step, and from an answer to the next.
use vstd::prelude::*;

use crate::asset::{coins_view, sole_coin, Asset, AssetView, Coin, Cw20Coin, Cw20CoinView};
use crate::error::{seen, ContractError, PaymentError};
use crate::execute::state::{
    ExecuteStep, ExecuteStepView, Handover, HandoverView, Hook, HookView, PoolOffer,
    PoolOfferView, PoolSwap, PoolSwapView, Receipt, ReceiptView, Received, ReceivedView, SwapMsg,
    SwapMsgView, SwapRequest, SwapRequestView,
};
use crate::message::{
    AttributeView, Cw20HookMsg, Cw20HookMsgView, Cw20ReceiveMsg, Cw20ReceiveMsgView, ExecuteMsg,
    ExecuteMsgView, Message, MessageInfo, MessageInfoView, MessageView, Response, ResponseView,
    WasmMsg, WasmMsgView,
};
use crate::operation::{operations_view, SwapOperation, SwapOperationView};

verus! {

/// `cw_utils::one_coin`, which looks at nothing but the coins sent: an error
/// for no coin, for several, and for a zero amount of one; otherwise that one.
#[verifier::external_body]
fn one_coin(info: &MessageInfo) -> (coin: Result<Coin, PaymentError>)
    ensures
        seen(coin) == sole_coin(info@.funds),
{
    let sender = cosmwasm_std::Addr::unchecked(info.sender.as_str());
    let funds = info.funds.iter().map(|c| cosmwasm_std::coin(c.amount, c.denom.as_str())).collect();
    match cw_utils::one_coin(&cosmwasm_std::MessageInfo { sender, funds }) {
        Ok(coin) => Ok(Coin { denom: coin.denom, amount: coin.amount.u128() }),
        Err(cw_utils::PaymentError::MissingDenom(denom)) => Err(PaymentError::MissingDenom(denom)),
        Err(cw_utils::PaymentError::ExtraDenom(denom)) => Err(PaymentError::ExtraDenom(denom)),
        Err(cw_utils::PaymentError::MultipleDenoms {}) => Err(PaymentError::MultipleDenoms),
        Err(cw_utils::PaymentError::NoFunds {}) => Err(PaymentError::NoFunds),
        Err(cw_utils::PaymentError::NonPayable {}) => Err(PaymentError::NonPayable),
    }
}

/// The message is refused.
pub open spec fn refused<E>(error: ContractError<E>) -> ExecuteStepView<E> {
    ExecuteStepView::Done(Err(error))
}

/// The first step of treating a message to the adapter at `contract`.
pub open spec fn execute_step<E>(
    contract: Seq<char>,
    info: MessageInfoView,
    msg: ExecuteMsgView,
) -> ExecuteStepView<E> {
    match msg {
        ExecuteMsgView::Receive(cw20_msg) => receive_step(contract, info, cw20_msg),
        ExecuteMsgView::Swap { operations } => match sole_coin(info.funds) {
            Err(error) => refused(ContractError::Payment(error)),
            Ok(coin) => if operations.len() == 0 {
                refused(ContractError::SwapOperationsEmpty)
            } else if coin.denom != operations.first().denom_in {
                refused(ContractError::CoinInDenomMismatch)
            } else {
                ExecuteStepView::LoadEntryPoint(
                    SwapRequestView { contract, sender: info.sender, operations },
                )
            },
        },
        ExecuteMsgView::TransferFundsBack { swapper, return_denom } => {
            ExecuteStepView::TransferFundsBack { swapper, return_denom }
        },
        ExecuteMsgView::OraidexPoolSwap { operation } => if info.sender != contract {
            refused(ContractError::Unauthorized)
        } else {
            ExecuteStepView::CurrentAsset(PoolSwapView { operation })
        },
    }
}

/// The first step of treating tokens received: the sender of the notice is the
/// ledger of the token.
pub open spec fn receive_step<E>(
    contract: Seq<char>,
    info: MessageInfoView,
    cw20_msg: Cw20ReceiveMsgView,
) -> ExecuteStepView<E> {
    ExecuteStepView::ValidateAsset(
        ReceiptView {
            contract,
            info,
            asset: AssetView::Cw20(
                Cw20CoinView { address: info.sender, amount: cw20_msg.amount },
            ),
            cw20_msg,
        },
    )
}

/// The first step of treating a message to the adapter at `contract`.
pub fn execute<E>(contract: String, info: MessageInfo, msg: ExecuteMsg) -> (step: ExecuteStep<E>)
    ensures
        step@ == execute_step::<E>(contract@, info@, msg@),
{
    match msg {
        ExecuteMsg::Receive(cw20_msg) => receive_cw20(contract, info, cw20_msg),
        ExecuteMsg::Swap { operations } => {
            let coin = match one_coin(&info) {
                Ok(coin) => coin,
                Err(error) => {
                    return ExecuteStep::Done(Err(ContractError::Payment(error)));
                },
            };
            if operations.len() == 0 {
                return ExecuteStep::Done(Err(ContractError::SwapOperationsEmpty));
            }
            if coin.denom != operations[0].denom_in {
                return ExecuteStep::Done(Err(ContractError::CoinInDenomMismatch));
            }
            execute_swap(contract, info.sender, operations)
        },
        ExecuteMsg::TransferFundsBack { swapper, return_denom } => {
            ExecuteStep::TransferFundsBack { swapper, return_denom }
        },
        ExecuteMsg::OraidexPoolSwap { operation } => {
            execute_oraidex_pool_swap(contract, info, operation)
        },
    }
}

/// Treats tokens received.
pub fn receive_cw20<E>(contract: String, info: MessageInfo, cw20_msg: Cw20ReceiveMsg) -> (step:
    ExecuteStep<E>)
    ensures
        step@ == receive_step::<E>(contract@, info@, cw20_msg@),
{
    let asset = Asset::Cw20(
        Cw20Coin { address: info.sender.clone(), amount: cw20_msg.amount },
    );
    ExecuteStep::ValidateAsset(Receipt { contract, info, asset, cw20_msg })
}

/// Carries out operations for `sender`.
pub fn execute_swap<E>(contract: String, sender: String, operations: Vec<SwapOperation>) -> (step:
    ExecuteStep<E>)
    ensures
        step@ == ExecuteStepView::<E>::LoadEntryPoint(
            SwapRequestView {
                contract: contract@,
                sender: sender@,
                operations: operations_view(operations@),
            },
        ),
{
    ExecuteStep::LoadEntryPoint(SwapRequest { contract, sender, operations })
}

/// Carries out one operation, for the adapter itself only.
pub fn execute_oraidex_pool_swap<E>(
    contract: String,
    info: MessageInfo,
    operation: SwapOperation,
) -> (step: ExecuteStep<E>)
    ensures
        step@ == execute_step::<E>(
            contract@,
            info@,
            ExecuteMsgView::OraidexPoolSwap { operation: operation@ },
        ),
{
    if info.sender != contract {
        return ExecuteStep::Done(Err(ContractError::Unauthorized));
    }
    ExecuteStep::CurrentAsset(PoolSwap { operation })
}

/// The step after it was seen whether the tokens were received.
pub open spec fn after_validate_asset<E>(
    receipt: ReceiptView,
    answer: Result<(), E>,
) -> ExecuteStepView<E> {
    match answer {
        Ok(_) => ExecuteStepView::ValidateSender(
            ReceivedView { contract: receipt.contract, cw20_msg: receipt.cw20_msg },
        ),
        Err(error) => refused(ContractError::Outside(error)),
    }
}

impl Receipt {
    /// Takes whether the tokens were received.
    pub fn resume<E>(self, answer: Result<(), E>) -> (step: ExecuteStep<E>)
        ensures
            step@ == after_validate_asset(self@, answer),
    {
        match answer {
            Ok(_) => ExecuteStep::ValidateSender(
                Received { contract: self.contract, cw20_msg: self.cw20_msg },
            ),
            Err(error) => ExecuteStep::Done(Err(ContractError::Outside(error))),
        }
    }
}

/// The step after the address of the tokens' sender is known.
pub open spec fn after_validate_sender<E>(
    received: ReceivedView,
    answer: Result<Seq<char>, E>,
) -> ExecuteStepView<E> {
    match answer {
        Ok(sender) => ExecuteStepView::ParseHook(
            HookView { contract: received.contract, sender, msg: received.cw20_msg.msg },
        ),
        Err(error) => refused(ContractError::Outside(error)),
    }
}

impl Received {
    /// Takes the address of the tokens' sender.
    pub fn resume<E>(self, answer: Result<String, E>) -> (step: ExecuteStep<E>)
        ensures
            step@ == after_validate_sender(self@, seen(answer)),
    {
        match answer {
            Ok(sender) => ExecuteStep::ParseHook(
                Hook { contract: self.contract, sender, msg: self.cw20_msg.msg },
            ),
            Err(error) => ExecuteStep::Done(Err(ContractError::Outside(error))),
        }
    }
}

/// The step after the message of the tokens was read.
pub open spec fn after_parse_hook<E>(
    hook: HookView,
    answer: Result<Cw20HookMsgView, E>,
) -> ExecuteStepView<E> {
    match answer {
        Ok(Cw20HookMsgView::Swap { operations }) => ExecuteStepView::LoadEntryPoint(
            SwapRequestView { contract: hook.contract, sender: hook.sender, operations },
        ),
        Err(error) => refused(ContractError::Outside(error)),
    }
}

impl Hook {
    /// Takes what the message of the tokens says.
    pub fn resume<E>(self, answer: Result<Cw20HookMsg, E>) -> (step: ExecuteStep<E>)
        ensures
            step@ == after_parse_hook(self@, seen(answer)),
    {
        match answer {
            Ok(Cw20HookMsg::Swap { operations }) => execute_swap(
                self.contract,
                self.sender,
                operations,
            ),
            Err(error) => ExecuteStep::Done(Err(ContractError::Outside(error))),
        }
    }
}

/// A remark on what was done.
pub open spec fn action(value: Seq<char>) -> AttributeView {
    AttributeView { key: "action"@, value }
}

/// The adapter's message to itself that carries out an operation.
pub open spec fn pool_swap_message(
    contract: Seq<char>,
    operation: SwapOperationView,
) -> MessageView {
    MessageView::Execute {
        contract_addr: contract,
        msg: ExecuteMsgView::OraidexPoolSwap { operation },
        funds: seq![],
    }
}

/// The adapter's message to itself that sends what came out to `swapper`.
pub open spec fn transfer_back_message(
    contract: Seq<char>,
    swapper: Seq<char>,
    return_denom: Seq<char>,
) -> MessageView {
    MessageView::Execute {
        contract_addr: contract,
        msg: ExecuteMsgView::TransferFundsBack { swapper, return_denom },
        funds: seq![],
    }
}

/// The response to a swap: the operations in order, then what came out of the
/// last one back to the entry point.
pub open spec fn swap_response(
    contract: Seq<char>,
    entry_point: Seq<char>,
    operations: Seq<SwapOperationView>,
) -> ResponseView {
    ResponseView {
        messages: Seq::new(
            operations.len(),
            |i: int| pool_swap_message(contract, operations[i]),
        ).push(transfer_back_message(contract, entry_point, operations.last().denom_out)),
        attributes: seq![
            action("execute_swap"@),
            action("dispatch_swaps_and_transfer_back"@),
        ],
    }
}

/// The step after the entry point is known.
pub open spec fn after_load_entry_point<E>(
    request: SwapRequestView,
    answer: Result<Seq<char>, E>,
) -> ExecuteStepView<E> {
    match answer {
        Err(error) => refused(ContractError::Outside(error)),
        Ok(entry_point) => if request.sender != entry_point {
            refused(ContractError::Unauthorized)
        } else if request.operations.len() == 0 {
            refused(ContractError::SwapOperationsEmpty)
        } else {
            ExecuteStepView::Done(
                Ok(swap_response(request.contract, entry_point, request.operations)),
            )
        },
    }
}

impl SwapRequest {
    /// Takes the entry point.
    pub fn resume<E>(self, answer: Result<String, E>) -> (step: ExecuteStep<E>)
        ensures
            step@ == after_load_entry_point(self@, seen(answer)),
    {
        let entry_point = match answer {
            Ok(entry_point) => entry_point,
            Err(error) => {
                return ExecuteStep::Done(Err(ContractError::Outside(error)));
            },
        };
        if self.sender != entry_point {
            return ExecuteStep::Done(Err(ContractError::Unauthorized));
        }
        let ghost operations = operations_view(self.operations@);
        let mut response = Response::new().add_attribute("action", "execute_swap");
        for i in 0..self.operations.len()
            invariant
                operations == operations_view(self.operations@),
                response@.attributes == seq![action("execute_swap"@)],
                response@.messages == Seq::new(
                    i as nat,
                    |j: int| pool_swap_message(self.contract@, operations[j]),
                ),
        {
            let funds: Vec<Coin> = Vec::new();
            assert(coins_view(funds@) =~= seq![]);
            let message = Message::Execute {
                contract_addr: self.contract.clone(),
                msg: ExecuteMsg::OraidexPoolSwap { operation: self.operations[i].clone() },
                funds,
            };
            assert(message@ == pool_swap_message(self.contract@, operations[i as int]));
            response = response.add_message(message);
        }
        if self.operations.len() == 0 {
            return ExecuteStep::Done(Err(ContractError::SwapOperationsEmpty));
        }
        let return_denom = self.operations[self.operations.len() - 1].denom_out.clone();
        let funds: Vec<Coin> = Vec::new();
        assert(coins_view(funds@) =~= seq![]);
        let message = Message::Execute {
            contract_addr: self.contract,
            msg: ExecuteMsg::TransferFundsBack { swapper: entry_point, return_denom },
            funds,
        };
        let response = response.add_message(message).add_attribute(
            "action",
            "dispatch_swaps_and_transfer_back",
        );
        assert(response@ == swap_response(self@.contract, entry_point@, operations));
        ExecuteStep::Done(Ok(response))
    }
}

/// The step after what there is to offer is known.
pub open spec fn after_current_asset<E>(
    pool_swap: PoolSwapView,
    answer: Result<AssetView, E>,
) -> ExecuteStepView<E> {
    match answer {
        Err(error) => refused(ContractError::Outside(error)),
        Ok(offer_asset) => if offer_asset.amount() == 0 {
            refused(ContractError::NoOfferAssetAmount)
        } else {
            ExecuteStepView::SwapMsg(
                PoolOfferView { operation: pool_swap.operation, offer_asset },
            )
        },
    }
}

impl PoolSwap {
    /// Takes what there is to offer.
    pub fn resume<E>(self, answer: Result<Asset, E>) -> (step: ExecuteStep<E>)
        ensures
            step@ == after_current_asset(self@, seen(answer)),
    {
        match answer {
            Err(error) => ExecuteStep::Done(Err(ContractError::Outside(error))),
            Ok(offer_asset) => {
                if offer_asset.amount() == 0 {
                    return ExecuteStep::Done(Err(ContractError::NoOfferAssetAmount));
                }
                ExecuteStep::SwapMsg(PoolOffer { operation: self.operation, offer_asset })
            },
        }
    }
}

/// The step after the message that carries out the operation is known.
pub open spec fn after_swap_msg<E>(
    offer: PoolOfferView,
    answer: Result<SwapMsgView, E>,
) -> ExecuteStepView<E> {
    match answer {
        Err(error) => refused(ContractError::Outside(error)),
        Ok(swap_msg) => ExecuteStepView::IntoWasmMsg(
            HandoverView { offer_asset: offer.offer_asset, swap_msg },
        ),
    }
}

impl PoolOffer {
    /// Takes the message that carries out the operation.
    pub fn resume<E>(self, answer: Result<SwapMsg, E>) -> (step: ExecuteStep<E>)
        ensures
            step@ == after_swap_msg(self@, seen(answer)),
    {
        match answer {
            Err(error) => ExecuteStep::Done(Err(ContractError::Outside(error))),
            Ok(swap_msg) => ExecuteStep::IntoWasmMsg(
                Handover { offer_asset: self.offer_asset, swap_msg },
            ),
        }
    }
}

/// The response to one operation: the call that hands over what there is to
/// offer.
pub open spec fn pool_swap_response(wasm_msg: WasmMsgView) -> ResponseView {
    ResponseView {
        messages: seq![MessageView::Wasm(wasm_msg)],
        attributes: seq![action("dispatch_oraidex_pool_swap"@)],
    }
}

/// The step after the call that hands the asset over is known.
pub open spec fn after_into_wasm_msg<E>(answer: Result<WasmMsgView, E>) -> ExecuteStepView<E> {
    match answer {
        Err(error) => refused(ContractError::Outside(error)),
        Ok(wasm_msg) => ExecuteStepView::Done(Ok(pool_swap_response(wasm_msg))),
    }
}

impl Handover {
    /// Takes the call that hands the asset over.
    pub fn resume<E>(self, answer: Result<WasmMsg, E>) -> (step: ExecuteStep<E>)
        ensures
            step@ == after_into_wasm_msg(seen(answer)),
    {
        match answer {
            Err(error) => ExecuteStep::Done(Err(ContractError::Outside(error))),
            Ok(wasm_msg) => {
                let response = Response::new().add_message(Message::Wasm(wasm_msg)).add_attribute(
                    "action",
                    "dispatch_oraidex_pool_swap",
                );
                ExecuteStep::Done(Ok(response))
            },
        }
    }
}

} // verus!
