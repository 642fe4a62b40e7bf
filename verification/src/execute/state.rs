//! The steps of treating a message, and what is known at each.
use vstd::prelude::*;

use crate::asset::{Asset, AssetView};
use crate::error::{seen, ContractError};
use crate::message::{
    Cw20ReceiveMsg, Cw20ReceiveMsgView, MessageInfo, MessageInfoView, Response, ResponseView,
};
use crate::operation::{operations_view, SwapOperation, SwapOperationView};

verus! {

/// Notice came that `asset` was received: it has to be seen whether it was.
/// `info` is that of the notice, its sender the ledger of the token.
#[derive(Debug, PartialEq, Eq)]
pub struct Receipt {
    pub contract: String,
    pub info: MessageInfo,
    pub asset: Asset,
    pub cw20_msg: Cw20ReceiveMsg,
}

#[verifier::ext_equal]
pub struct ReceiptView {
    pub contract: Seq<char>,
    pub info: MessageInfoView,
    pub asset: AssetView,
    pub cw20_msg: Cw20ReceiveMsgView,
}

impl View for Receipt {
    type V = ReceiptView;

    open spec fn view(&self) -> ReceiptView {
        ReceiptView {
            contract: self.contract@,
            info: self.info@,
            asset: self.asset@,
            cw20_msg: self.cw20_msg@,
        }
    }
}

/// The tokens are there: who sent them has to be a valid address.
#[derive(Debug, PartialEq, Eq)]
pub struct Received {
    pub contract: String,
    pub cw20_msg: Cw20ReceiveMsg,
}

#[verifier::ext_equal]
pub struct ReceivedView {
    pub contract: Seq<char>,
    pub cw20_msg: Cw20ReceiveMsgView,
}

impl View for Received {
    type V = ReceivedView;

    open spec fn view(&self) -> ReceivedView {
        ReceivedView { contract: self.contract@, cw20_msg: self.cw20_msg@ }
    }
}

/// The sender of the tokens is known: their message has to be read.
#[derive(Debug, PartialEq, Eq)]
pub struct Hook {
    pub contract: String,
    pub sender: String,
    pub msg: Vec<u8>,
}

#[verifier::ext_equal]
pub struct HookView {
    pub contract: Seq<char>,
    pub sender: Seq<char>,
    pub msg: Seq<u8>,
}

impl View for Hook {
    type V = HookView;

    open spec fn view(&self) -> HookView {
        HookView { contract: self.contract@, sender: self.sender@, msg: self.msg@ }
    }
}

/// `sender` wants operations carried out: it has to be the entry point.
#[derive(Debug, PartialEq, Eq)]
pub struct SwapRequest {
    pub contract: String,
    pub sender: String,
    pub operations: Vec<SwapOperation>,
}

#[verifier::ext_equal]
pub struct SwapRequestView {
    pub contract: Seq<char>,
    pub sender: Seq<char>,
    pub operations: Seq<SwapOperationView>,
}

impl View for SwapRequest {
    type V = SwapRequestView;

    open spec fn view(&self) -> SwapRequestView {
        SwapRequestView {
            contract: self.contract@,
            sender: self.sender@,
            operations: operations_view(self.operations@),
        }
    }
}

/// An operation is to be carried out: what is there to offer has to be found.
#[derive(Debug, PartialEq, Eq)]
pub struct PoolSwap {
    pub operation: SwapOperation,
}

#[verifier::ext_equal]
pub struct PoolSwapView {
    pub operation: SwapOperationView,
}

impl View for PoolSwap {
    type V = PoolSwapView;

    open spec fn view(&self) -> PoolSwapView {
        PoolSwapView { operation: self.operation@ }
    }
}

/// What there is to offer is known: the message that offers it is needed.
#[derive(Debug, PartialEq, Eq)]
pub struct PoolOffer {
    pub operation: SwapOperation,
    pub offer_asset: Asset,
}

#[verifier::ext_equal]
pub struct PoolOfferView {
    pub operation: SwapOperationView,
    pub offer_asset: AssetView,
}

impl View for PoolOffer {
    type V = PoolOfferView;

    open spec fn view(&self) -> PoolOfferView {
        PoolOfferView { operation: self.operation@, offer_asset: self.offer_asset@ }
    }
}

/// The message that carries out an operation, and the contract that takes it.
#[derive(Debug, PartialEq, Eq)]
pub struct SwapMsg {
    pub contract_addr: String,
    pub msg: Vec<u8>,
}

#[verifier::ext_equal]
pub struct SwapMsgView {
    pub contract_addr: Seq<char>,
    pub msg: Seq<u8>,
}

impl View for SwapMsg {
    type V = SwapMsgView;

    open spec fn view(&self) -> SwapMsgView {
        SwapMsgView { contract_addr: self.contract_addr@, msg: self.msg@ }
    }
}

/// The message that carries out the operation is known: what is there to offer
/// has to be handed over with it.
#[derive(Debug, PartialEq, Eq)]
pub struct Handover {
    pub offer_asset: Asset,
    pub swap_msg: SwapMsg,
}

#[verifier::ext_equal]
pub struct HandoverView {
    pub offer_asset: AssetView,
    pub swap_msg: SwapMsgView,
}

impl View for Handover {
    type V = HandoverView;

    open spec fn view(&self) -> HandoverView {
        HandoverView { offer_asset: self.offer_asset@, swap_msg: self.swap_msg@ }
    }
}

/// A step of treating a message.
#[derive(Debug, PartialEq, Eq)]
pub enum ExecuteStep<E> {
    /// The end.
    Done(Result<Response, ContractError<E>>),
    /// The end, too: whatever comes of transferring the funds back.
    TransferFundsBack { swapper: String, return_denom: String },
    /// Was `asset` received, as `info` says?
    ValidateAsset(Receipt),
    /// Which address is the sender of the tokens?
    ValidateSender(Received),
    /// What does the message of the tokens ask for?
    ParseHook(Hook),
    /// Which address is the entry point?
    LoadEntryPoint(SwapRequest),
    /// What is held of the input of the operation?
    CurrentAsset(PoolSwap),
    /// Which message carries out the operation?
    SwapMsg(PoolOffer),
    /// Which call hands `offer_asset` over with the message?
    IntoWasmMsg(Handover),
}

#[verifier::ext_equal]
pub enum ExecuteStepView<E> {
    Done(Result<ResponseView, ContractError<E>>),
    TransferFundsBack { swapper: Seq<char>, return_denom: Seq<char> },
    ValidateAsset(ReceiptView),
    ValidateSender(ReceivedView),
    ParseHook(HookView),
    LoadEntryPoint(SwapRequestView),
    CurrentAsset(PoolSwapView),
    SwapMsg(PoolOfferView),
    IntoWasmMsg(HandoverView),
}

impl<E> View for ExecuteStep<E> {
    type V = ExecuteStepView<E>;

    open spec fn view(&self) -> ExecuteStepView<E> {
        match self {
            ExecuteStep::Done(result) => ExecuteStepView::Done(seen(*result)),
            ExecuteStep::TransferFundsBack {
                swapper,
                return_denom,
            } => ExecuteStepView::TransferFundsBack {
                swapper: swapper@,
                return_denom: return_denom@,
            },
            ExecuteStep::ValidateAsset(state) => ExecuteStepView::ValidateAsset(state@),
            ExecuteStep::ValidateSender(state) => ExecuteStepView::ValidateSender(state@),
            ExecuteStep::ParseHook(state) => ExecuteStepView::ParseHook(state@),
            ExecuteStep::LoadEntryPoint(state) => ExecuteStepView::LoadEntryPoint(state@),
            ExecuteStep::CurrentAsset(state) => ExecuteStepView::CurrentAsset(state@),
            ExecuteStep::SwapMsg(state) => ExecuteStepView::SwapMsg(state@),
            ExecuteStep::IntoWasmMsg(state) => ExecuteStepView::IntoWasmMsg(state@),
        }
    }
}

} // verus!
