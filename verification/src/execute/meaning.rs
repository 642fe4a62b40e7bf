//! What comes of a message, as a function of what its questions are answered.
use vstd::prelude::*;

use crate::asset::{sole_coin, AssetView, Cw20CoinView};
use crate::error::ContractError;
use crate::execute::state::{ExecuteStepView, SwapMsgView};
use crate::execute::step::{
    after_current_asset, after_into_wasm_msg, after_load_entry_point, after_parse_hook,
    after_swap_msg, after_validate_asset, after_validate_sender, pool_swap_response,
    swap_response,
};
use crate::message::{
    Cw20HookMsgView, Cw20ReceiveMsgView, ExecuteMsgView, MessageInfoView, ResponseView,
    WasmMsgView,
};
use crate::operation::SwapOperationView;

verus! {

/// The answers that the chain gives to the questions of a message. A question
/// has one answer, however often it is asked: a message is treated on one state.
#[verifier::reject_recursive_types(E)]
pub struct ExecuteHost<E> {
    /// Whether an adapter received an asset, as the notice says.
    pub validate_asset: spec_fn(Seq<char>, MessageInfoView, AssetView) -> Result<(), E>,
    /// The address that a text stands for.
    pub validate_address: spec_fn(Seq<char>) -> Result<Seq<char>, E>,
    /// What the message of received tokens asks for.
    pub parse_hook: spec_fn(Seq<u8>) -> Result<Cw20HookMsgView, E>,
    /// The entry point.
    pub entry_point: Result<Seq<char>, E>,
    /// What is held of a denom.
    pub current_asset: spec_fn(Seq<char>) -> Result<AssetView, E>,
    /// The message that carries out an operation.
    pub swap_msg: spec_fn(SwapOperationView) -> Result<SwapMsgView, E>,
    /// The call that hands an asset over to a contract, with a message.
    pub into_wasm_msg: spec_fn(AssetView, Seq<char>, Seq<u8>) -> Result<WasmMsgView, E>,
}

/// How a message ends: with what it responds, or with whatever comes of
/// transferring the funds back.
#[verifier::ext_equal]
pub enum ExecuteEnd<E> {
    Responded(Result<ResponseView, ContractError<E>>),
    TransferFundsBack { swapper: Seq<char>, return_denom: Seq<char> },
}

impl<E> ExecuteHost<E> {
    /// Carrying out operations for `sender`.
    pub open spec fn swap(
        self,
        contract: Seq<char>,
        sender: Seq<char>,
        operations: Seq<SwapOperationView>,
    ) -> Result<ResponseView, ContractError<E>> {
        match self.entry_point {
            Err(error) => Err(ContractError::Outside(error)),
            Ok(entry_point) => if sender != entry_point {
                Err(ContractError::Unauthorized)
            } else if operations.len() == 0 {
                Err(ContractError::SwapOperationsEmpty)
            } else {
                Ok(swap_response(contract, entry_point, operations))
            },
        }
    }

    /// Carrying out operations on the coin that came along.
    pub open spec fn swap_coin(
        self,
        contract: Seq<char>,
        info: MessageInfoView,
        operations: Seq<SwapOperationView>,
    ) -> Result<ResponseView, ContractError<E>> {
        match sole_coin(info.funds) {
            Err(error) => Err(ContractError::Payment(error)),
            Ok(coin) => if operations.len() == 0 {
                Err(ContractError::SwapOperationsEmpty)
            } else if coin.denom != operations.first().denom_in {
                Err(ContractError::CoinInDenomMismatch)
            } else {
                self.swap(contract, info.sender, operations)
            },
        }
    }

    /// Doing what the message of received tokens asks for.
    pub open spec fn receive(
        self,
        contract: Seq<char>,
        info: MessageInfoView,
        cw20_msg: Cw20ReceiveMsgView,
    ) -> Result<ResponseView, ContractError<E>> {
        let sent = AssetView::Cw20(
            Cw20CoinView { address: info.sender, amount: cw20_msg.amount },
        );
        match (self.validate_asset)(contract, info, sent) {
            Err(error) => Err(ContractError::Outside(error)),
            Ok(_) => match (self.validate_address)(cw20_msg.sender) {
                Err(error) => Err(ContractError::Outside(error)),
                Ok(sender) => match (self.parse_hook)(cw20_msg.msg) {
                    Err(error) => Err(ContractError::Outside(error)),
                    Ok(Cw20HookMsgView::Swap { operations }) => self.swap(
                        contract,
                        sender,
                        operations,
                    ),
                },
            },
        }
    }

    /// Carrying out one operation for `sender`.
    pub open spec fn pool_swap(
        self,
        contract: Seq<char>,
        sender: Seq<char>,
        operation: SwapOperationView,
    ) -> Result<ResponseView, ContractError<E>> {
        if sender != contract {
            Err(ContractError::Unauthorized)
        } else {
            match (self.current_asset)(operation.denom_in) {
                Err(error) => Err(ContractError::Outside(error)),
                Ok(offer_asset) => if offer_asset.amount() == 0 {
                    Err(ContractError::NoOfferAssetAmount)
                } else {
                    match (self.swap_msg)(operation) {
                        Err(error) => Err(ContractError::Outside(error)),
                        Ok(swap_msg) => match (self.into_wasm_msg)(
                            offer_asset,
                            swap_msg.contract_addr,
                            swap_msg.msg,
                        ) {
                            Err(error) => Err(ContractError::Outside(error)),
                            Ok(wasm_msg) => Ok(pool_swap_response(wasm_msg)),
                        },
                    }
                },
            }
        }
    }

    /// How a message to the adapter at `contract` ends.
    pub open spec fn end(
        self,
        contract: Seq<char>,
        info: MessageInfoView,
        msg: ExecuteMsgView,
    ) -> ExecuteEnd<E> {
        match msg {
            ExecuteMsgView::Receive(cw20_msg) => ExecuteEnd::Responded(
                self.receive(contract, info, cw20_msg),
            ),
            ExecuteMsgView::Swap { operations } => ExecuteEnd::Responded(
                self.swap_coin(contract, info, operations),
            ),
            ExecuteMsgView::TransferFundsBack { swapper, return_denom } => {
                ExecuteEnd::TransferFundsBack { swapper, return_denom }
            },
            ExecuteMsgView::OraidexPoolSwap { operation } => ExecuteEnd::Responded(
                self.pool_swap(contract, info.sender, operation),
            ),
        }
    }
}

/// How many questions may still follow.
pub open spec fn rank<E>(step: ExecuteStepView<E>) -> nat {
    match step {
        ExecuteStepView::Done(_) => 0,
        ExecuteStepView::TransferFundsBack { .. } => 0,
        ExecuteStepView::LoadEntryPoint(_) => 1,
        ExecuteStepView::ParseHook(_) => 2,
        ExecuteStepView::ValidateSender(_) => 3,
        ExecuteStepView::ValidateAsset(_) => 4,
        ExecuteStepView::IntoWasmMsg(_) => 1,
        ExecuteStepView::SwapMsg(_) => 2,
        ExecuteStepView::CurrentAsset(_) => 3,
    }
}

/// The step after `step`, its question answered by `host`. An end stays as it is.
pub open spec fn answered<E>(step: ExecuteStepView<E>, host: ExecuteHost<E>) -> ExecuteStepView<E> {
    match step {
        ExecuteStepView::Done(_) => step,
        ExecuteStepView::TransferFundsBack { .. } => step,
        ExecuteStepView::ValidateAsset(receipt) => after_validate_asset(
            receipt,
            (host.validate_asset)(receipt.contract, receipt.info, receipt.asset),
        ),
        ExecuteStepView::ValidateSender(received) => after_validate_sender(
            received,
            (host.validate_address)(received.cw20_msg.sender),
        ),
        ExecuteStepView::ParseHook(hook) => after_parse_hook(hook, (host.parse_hook)(hook.msg)),
        ExecuteStepView::LoadEntryPoint(request) => after_load_entry_point(
            request,
            host.entry_point,
        ),
        ExecuteStepView::CurrentAsset(pool_swap) => after_current_asset(
            pool_swap,
            (host.current_asset)(pool_swap.operation.denom_in),
        ),
        ExecuteStepView::SwapMsg(offer) => after_swap_msg(offer, (host.swap_msg)(offer.operation)),
        ExecuteStepView::IntoWasmMsg(handover) => after_into_wasm_msg(
            (host.into_wasm_msg)(
                handover.offer_asset,
                handover.swap_msg.contract_addr,
                handover.swap_msg.msg,
            ),
        ),
    }
}

/// How a message ends from `step` on, each question answered by `host` and the
/// answer handed back until there is no question left.
pub open spec fn outcome<E>(step: ExecuteStepView<E>, host: ExecuteHost<E>) -> ExecuteEnd<E>
    decreases rank(step),
{
    match step {
        ExecuteStepView::Done(result) => ExecuteEnd::Responded(result),
        ExecuteStepView::TransferFundsBack { swapper, return_denom } => {
            ExecuteEnd::TransferFundsBack { swapper, return_denom }
        },
        _ => outcome(answered(step, host), host),
    }
}

} // verus!
