//! Messages to the adapter, and what it sends in response.
use vstd::prelude::*;

use crate::asset::{coins_view, Coin, CoinView};
use crate::operation::{operations_view, SwapOperation, SwapOperationView};

verus! {

/// Who sent a message, and the native coins that came with it.
#[derive(Debug, PartialEq, Eq)]
pub struct MessageInfo {
    pub sender: String,
    pub funds: Vec<Coin>,
}

#[verifier::ext_equal]
pub struct MessageInfoView {
    pub sender: Seq<char>,
    pub funds: Seq<CoinView>,
}

impl View for MessageInfo {
    type V = MessageInfoView;

    open spec fn view(&self) -> MessageInfoView {
        MessageInfoView { sender: self.sender@, funds: coins_view(self.funds@) }
    }
}

/// Notice of tokens received: who sent them, how many, and a message with them.
#[derive(Debug, PartialEq, Eq)]
pub struct Cw20ReceiveMsg {
    pub sender: String,
    pub amount: u128,
    pub msg: Vec<u8>,
}

#[verifier::ext_equal]
pub struct Cw20ReceiveMsgView {
    pub sender: Seq<char>,
    pub amount: nat,
    pub msg: Seq<u8>,
}

impl View for Cw20ReceiveMsg {
    type V = Cw20ReceiveMsgView;

    open spec fn view(&self) -> Cw20ReceiveMsgView {
        Cw20ReceiveMsgView {
            sender: self.sender@,
            amount: self.amount as nat,
            msg: self.msg@,
        }
    }
}

/// What the message with received tokens can ask for.
#[derive(Debug, PartialEq, Eq)]
pub enum Cw20HookMsg {
    Swap { operations: Vec<SwapOperation> },
}

#[verifier::ext_equal]
pub enum Cw20HookMsgView {
    Swap { operations: Seq<SwapOperationView> },
}

impl View for Cw20HookMsg {
    type V = Cw20HookMsgView;

    open spec fn view(&self) -> Cw20HookMsgView {
        match self {
            Cw20HookMsg::Swap { operations } => Cw20HookMsgView::Swap {
                operations: operations_view(operations@),
            },
        }
    }
}

/// What the adapter can be told to do.
#[derive(Debug, PartialEq, Eq)]
pub enum ExecuteMsg {
    /// Tokens were received.
    Receive(Cw20ReceiveMsg),
    /// Carry out operations on the coin that comes along.
    Swap { operations: Vec<SwapOperation> },
    /// Send what is held of `return_denom` to `swapper`.
    TransferFundsBack { swapper: String, return_denom: String },
    /// Carry out one operation on what is held of its input.
    OraidexPoolSwap { operation: SwapOperation },
}

#[verifier::ext_equal]
pub enum ExecuteMsgView {
    Receive(Cw20ReceiveMsgView),
    Swap { operations: Seq<SwapOperationView> },
    TransferFundsBack { swapper: Seq<char>, return_denom: Seq<char> },
    OraidexPoolSwap { operation: SwapOperationView },
}

impl View for ExecuteMsg {
    type V = ExecuteMsgView;

    open spec fn view(&self) -> ExecuteMsgView {
        match self {
            ExecuteMsg::Receive(cw20_msg) => ExecuteMsgView::Receive(cw20_msg@),
            ExecuteMsg::Swap { operations } => ExecuteMsgView::Swap {
                operations: operations_view(operations@),
            },
            ExecuteMsg::TransferFundsBack { swapper, return_denom } => {
                ExecuteMsgView::TransferFundsBack {
                    swapper: swapper@,
                    return_denom: return_denom@,
                }
            },
            ExecuteMsg::OraidexPoolSwap { operation } => ExecuteMsgView::OraidexPoolSwap {
                operation: operation@,
            },
        }
    }
}

/// A call of a contract, with its message encoded and coins.
#[derive(Debug, PartialEq, Eq)]
pub struct WasmMsg {
    pub contract_addr: String,
    pub msg: Vec<u8>,
    pub funds: Vec<Coin>,
}

#[verifier::ext_equal]
pub struct WasmMsgView {
    pub contract_addr: Seq<char>,
    pub msg: Seq<u8>,
    pub funds: Seq<CoinView>,
}

impl View for WasmMsg {
    type V = WasmMsgView;

    open spec fn view(&self) -> WasmMsgView {
        WasmMsgView {
            contract_addr: self.contract_addr@,
            msg: self.msg@,
            funds: coins_view(self.funds@),
        }
    }
}

/// A message to a contract.
#[derive(Debug, PartialEq, Eq)]
pub enum Message {
    /// To an adapter at `contract_addr`, with coins.
    Execute { contract_addr: String, msg: ExecuteMsg, funds: Vec<Coin> },
    /// To any contract.
    Wasm(WasmMsg),
}

#[verifier::ext_equal]
pub enum MessageView {
    Execute { contract_addr: Seq<char>, msg: ExecuteMsgView, funds: Seq<CoinView> },
    Wasm(WasmMsgView),
}

impl View for Message {
    type V = MessageView;

    open spec fn view(&self) -> MessageView {
        match self {
            Message::Execute { contract_addr, msg, funds } => MessageView::Execute {
                contract_addr: contract_addr@,
                msg: msg@,
                funds: coins_view(funds@),
            },
            Message::Wasm(wasm_msg) => MessageView::Wasm(wasm_msg@),
        }
    }
}

/// A remark on what was done, for whoever watches the chain.
#[derive(Debug, PartialEq, Eq)]
pub struct Attribute {
    pub key: String,
    pub value: String,
}

#[verifier::ext_equal]
pub struct AttributeView {
    pub key: Seq<char>,
    pub value: Seq<char>,
}

impl View for Attribute {
    type V = AttributeView;

    open spec fn view(&self) -> AttributeView {
        AttributeView { key: self.key@, value: self.value@ }
    }
}

/// What the adapter does about a message: the messages it sends, in order, and
/// remarks.
#[derive(Debug, PartialEq, Eq)]
pub struct Response {
    pub messages: Vec<Message>,
    pub attributes: Vec<Attribute>,
}

#[verifier::ext_equal]
pub struct ResponseView {
    pub messages: Seq<MessageView>,
    pub attributes: Seq<AttributeView>,
}

impl View for Response {
    type V = ResponseView;

    open spec fn view(&self) -> ResponseView {
        ResponseView {
            messages: Seq::new(self.messages@.len(), |i: int| self.messages@[i]@),
            attributes: Seq::new(self.attributes@.len(), |i: int| self.attributes@[i]@),
        }
    }
}

impl ResponseView {
    /// No messages and no remarks.
    pub open spec fn empty() -> ResponseView {
        ResponseView { messages: seq![], attributes: seq![] }
    }
}

impl Response {
    /// No messages and no remarks.
    pub fn new() -> (response: Response)
        ensures
            response@ == ResponseView::empty(),
            response.messages@.len() == 0,
            response.attributes@.len() == 0,
    {
        Response { messages: Vec::new(), attributes: Vec::new() }
    }

    /// The same with one message more.
    pub fn add_message(self, message: Message) -> (response: Response)
        ensures
            response@ == (ResponseView { messages: self@.messages.push(message@), ..self@ }),
    {
        let mut response = self;
        response.messages.push(message);
        response
    }

    /// The same with one remark more.
    pub fn add_attribute(self, key: &str, value: &str) -> (response: Response)
        ensures
            response@ == (ResponseView {
                attributes: self@.attributes.push(AttributeView { key: key@, value: value@ }),
                ..self@
            }),
    {
        let mut response = self;
        response.attributes.push(Attribute { key: key.to_owned(), value: value.to_owned() });
        response
    }
}

} // verus!
