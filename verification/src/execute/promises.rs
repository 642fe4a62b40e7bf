//! What a message comes to, said of what was sent and what the chain answers.
use vstd::prelude::*;

use crate::asset::{AssetView, CoinView, Cw20CoinView};
use crate::error::{ContractError, PaymentError};
use crate::execute::laws::message_ends_as_told;
use crate::execute::meaning::{outcome, ExecuteEnd, ExecuteHost};
use crate::execute::state::ExecuteStepView;
use crate::execute::step::{
    after_current_asset, after_into_wasm_msg, after_load_entry_point, after_parse_hook,
    after_swap_msg, after_validate_asset, after_validate_sender, execute_step, receive_step,
};
use crate::message::{
    AttributeView, Cw20HookMsgView, Cw20ReceiveMsgView, ExecuteMsgView, MessageInfoView,
    MessageView, ResponseView,
};
use crate::operation::SwapOperationView;

verus! {

/// A swap of coins gets a response exactly where one coin came along, there is
/// some of it, there is an operation, the first one takes that coin in, and the
/// sender is the entry point. Nothing else counts: not the pools, not the number
/// of operations, not whether one takes in what the one before gives out.
pub proof fn when_coins_are_swapped<E>(
    contract: Seq<char>,
    info: MessageInfoView,
    operations: Seq<SwapOperationView>,
    host: ExecuteHost<E>,
)
    ensures
        (outcome(execute_step(contract, info, ExecuteMsgView::Swap { operations }), host)
            matches ExecuteEnd::Responded(Ok(_))) <==> {
            &&& info.funds.len() == 1
            &&& info.funds[0].amount > 0
            &&& operations.len() > 0
            &&& info.funds[0].denom == operations[0].denom_in
            &&& host.entry_point == Ok::<_, E>(info.sender)
        },
{
    message_ends_as_told(contract, info, ExecuteMsgView::Swap { operations }, host);
}

/// A swap of coins is refused for the first thing that stands against it: the
/// coins, then the operations, then the coin's denom, then what the chain says
/// of the entry point, then the sender. Each error comes for its reason only.
pub proof fn why_coins_are_not_swapped<E>(
    contract: Seq<char>,
    info: MessageInfoView,
    operations: Seq<SwapOperationView>,
    error: E,
    host: ExecuteHost<E>,
)
    ensures
        ({
            let end = outcome(
                execute_step(contract, info, ExecuteMsgView::Swap { operations }),
                host,
            );
            let one_coin = info.funds.len() == 1 && info.funds[0].amount > 0;
            let right_coin = one_coin && operations.len() > 0 && info.funds[0].denom
                == operations[0].denom_in;
            &&& end == ExecuteEnd::<E>::Responded(
                Err(ContractError::Payment(PaymentError::MultipleDenoms)),
            ) <==> info.funds.len() > 1
            &&& end == ExecuteEnd::<E>::Responded(
                Err(ContractError::Payment(PaymentError::NoFunds)),
            ) <==> info.funds.len() == 0 || (info.funds.len() == 1 && info.funds[0].amount == 0)
            &&& end == ExecuteEnd::<E>::Responded(Err(ContractError::SwapOperationsEmpty))
                <==> one_coin && operations.len() == 0
            &&& end == ExecuteEnd::<E>::Responded(Err(ContractError::CoinInDenomMismatch))
                <==> one_coin && operations.len() > 0 && info.funds[0].denom
                != operations[0].denom_in
            &&& end == ExecuteEnd::<E>::Responded(Err(ContractError::Outside(error)))
                <==> right_coin && host.entry_point == Err::<Seq<char>, E>(error)
            &&& end == ExecuteEnd::<E>::Responded(Err(ContractError::Unauthorized))
                <==> right_coin && (host.entry_point matches Ok(entry_point) && entry_point
                != info.sender)
        }),
{
    message_ends_as_told(contract, info, ExecuteMsgView::Swap { operations }, host);
}

/// The response to a swap of coins: a message of the adapter to itself for each
/// operation, in their order, then one that returns what the last gives out to
/// the sender; none carries coins, and two remarks say what was done.
pub proof fn what_a_swap_of_coins_sends<E>(
    contract: Seq<char>,
    info: MessageInfoView,
    operations: Seq<SwapOperationView>,
    response: ResponseView,
    host: ExecuteHost<E>,
)
    requires
        outcome(execute_step(contract, info, ExecuteMsgView::Swap { operations }), host)
            == ExecuteEnd::<E>::Responded(Ok(response)),
    ensures
        response.messages.len() == operations.len() + 1,
        forall|i: int|
            0 <= i < operations.len() ==> #[trigger] response.messages[i] == (
            MessageView::Execute {
                contract_addr: contract,
                msg: ExecuteMsgView::OraidexPoolSwap { operation: operations[i] },
                funds: Seq::<CoinView>::empty(),
            }),
        response.messages[operations.len() as int] == (MessageView::Execute {
            contract_addr: contract,
            msg: ExecuteMsgView::TransferFundsBack {
                swapper: info.sender,
                return_denom: operations[operations.len() - 1].denom_out,
            },
            funds: Seq::<CoinView>::empty(),
        }),
        response.attributes == seq![
            AttributeView { key: "action"@, value: "execute_swap"@ },
            AttributeView { key: "action"@, value: "dispatch_swaps_and_transfer_back"@ },
        ],
{
    message_ends_as_told(contract, info, ExecuteMsgView::Swap { operations }, host);
}

/// Tokens are swapped exactly where the chain confirms that they came from the
/// ledger that gives notice of them, knows the address of who sent them, reads
/// operations in their message, one at least, and has that address as the entry
/// point. The coins that came along, and what the operations say, do not count.
pub proof fn when_tokens_are_swapped<E>(
    contract: Seq<char>,
    info: MessageInfoView,
    cw20_msg: Cw20ReceiveMsgView,
    host: ExecuteHost<E>,
)
    ensures
        (outcome(execute_step(contract, info, ExecuteMsgView::Receive(cw20_msg)), host)
            matches ExecuteEnd::Responded(Ok(_))) <==> {
            &&& (host.validate_asset)(
                contract,
                info,
                AssetView::Cw20(Cw20CoinView { address: info.sender, amount: cw20_msg.amount }),
            ) is Ok
            &&& (host.validate_address)(cw20_msg.sender) is Ok
            &&& (host.parse_hook)(cw20_msg.msg) matches Ok(Cw20HookMsgView::Swap { operations })
                && operations.len() > 0
            &&& host.entry_point == (host.validate_address)(cw20_msg.sender)
        },
{
    message_ends_as_told(contract, info, ExecuteMsgView::Receive(cw20_msg), host);
}

/// Tokens are refused for the first thing that stands against them: that the
/// chain does not confirm them, does not know who sent them, cannot read their
/// message, has no entry point; then that it is another; then that there is no
/// operation. Each error comes for its reason only.
pub proof fn why_tokens_are_not_swapped<E>(
    contract: Seq<char>,
    info: MessageInfoView,
    cw20_msg: Cw20ReceiveMsgView,
    error: E,
    host: ExecuteHost<E>,
)
    ensures
        ({
            let end = outcome(
                execute_step(contract, info, ExecuteMsgView::Receive(cw20_msg)),
                host,
            );
            let received = (host.validate_asset)(
                contract,
                info,
                AssetView::Cw20(Cw20CoinView { address: info.sender, amount: cw20_msg.amount }),
            );
            let sender = (host.validate_address)(cw20_msg.sender);
            let asked = (host.parse_hook)(cw20_msg.msg);
            let read = received is Ok && sender is Ok && asked is Ok;
            &&& end == ExecuteEnd::<E>::Responded(Err(ContractError::Outside(error)))
                <==> {
                    ||| received == Err::<(), E>(error)
                    ||| received is Ok && sender == Err::<Seq<char>, E>(error)
                    ||| received is Ok && sender is Ok && asked == Err::<Cw20HookMsgView, E>(error)
                    ||| read && host.entry_point == Err::<Seq<char>, E>(error)
                }
            &&& end == ExecuteEnd::<E>::Responded(Err(ContractError::Unauthorized)) <==> read && (
            host.entry_point matches Ok(entry_point) && sender != Ok::<_, E>(entry_point))
            &&& end == ExecuteEnd::<E>::Responded(Err(ContractError::SwapOperationsEmpty)) <==> read
                && host.entry_point == sender && (asked matches Ok(
                Cw20HookMsgView::Swap { operations },
            ) && operations.len() == 0)
        }),
{
    message_ends_as_told(contract, info, ExecuteMsgView::Receive(cw20_msg), host);
}

/// The response to tokens: a message of the adapter to itself for each operation
/// in their message, in their order, then one that returns what the last gives
/// out to whoever sent the tokens; none carries coins.
pub proof fn what_a_swap_of_tokens_sends<E>(
    contract: Seq<char>,
    info: MessageInfoView,
    cw20_msg: Cw20ReceiveMsgView,
    sender: Seq<char>,
    operations: Seq<SwapOperationView>,
    response: ResponseView,
    host: ExecuteHost<E>,
)
    requires
        outcome(execute_step(contract, info, ExecuteMsgView::Receive(cw20_msg)), host)
            == ExecuteEnd::<E>::Responded(Ok(response)),
        (host.validate_address)(cw20_msg.sender) == Ok::<_, E>(sender),
        (host.parse_hook)(cw20_msg.msg) == Ok::<_, E>(Cw20HookMsgView::Swap { operations }),
    ensures
        response.messages.len() == operations.len() + 1,
        forall|i: int|
            0 <= i < operations.len() ==> #[trigger] response.messages[i] == (
            MessageView::Execute {
                contract_addr: contract,
                msg: ExecuteMsgView::OraidexPoolSwap { operation: operations[i] },
                funds: Seq::<CoinView>::empty(),
            }),
        response.messages[operations.len() as int] == (MessageView::Execute {
            contract_addr: contract,
            msg: ExecuteMsgView::TransferFundsBack {
                swapper: sender,
                return_denom: operations[operations.len() - 1].denom_out,
            },
            funds: Seq::<CoinView>::empty(),
        }),
        response.attributes == seq![
            AttributeView { key: "action"@, value: "execute_swap"@ },
            AttributeView { key: "action"@, value: "dispatch_swaps_and_transfer_back"@ },
        ],
{
    message_ends_as_told(contract, info, ExecuteMsgView::Receive(cw20_msg), host);
}

/// A pool swap gets a response exactly where the adapter itself sent it, what is
/// held of the operation's input is known and more than nothing, the message for
/// the pool can be made and the asset can be handed over with it. The response is
/// that one call and a remark. Nothing else of the operation counts.
pub proof fn when_a_pool_swap_is_made<E>(
    contract: Seq<char>,
    info: MessageInfoView,
    operation: SwapOperationView,
    response: ResponseView,
    host: ExecuteHost<E>,
)
    ensures
        outcome(execute_step(contract, info, ExecuteMsgView::OraidexPoolSwap { operation }), host)
            == ExecuteEnd::<E>::Responded(Ok(response)) <==> {
            &&& info.sender == contract
            &&& (host.current_asset)(operation.denom_in) matches Ok(held) && ({
                ||| held matches AssetView::Native(coin) && coin.amount > 0
                ||| held matches AssetView::Cw20(coin) && coin.amount > 0
            }) && ((host.swap_msg)(operation) matches Ok(swap_msg) && ((host.into_wasm_msg)(
                held,
                swap_msg.contract_addr,
                swap_msg.msg,
            ) matches Ok(call) && response.messages == seq![MessageView::Wasm(call)]))
            &&& response.attributes == seq![
                AttributeView { key: "action"@, value: "dispatch_oraidex_pool_swap"@ },
            ]
        },
{
    message_ends_as_told(contract, info, ExecuteMsgView::OraidexPoolSwap { operation }, host);
}

/// A pool swap is refused for the first thing that stands against it: the
/// sender, then what the chain says of what is held, then that there is nothing,
/// then what the chain says of the message and of handing the asset over.
pub proof fn why_a_pool_swap_is_not_made<E>(
    contract: Seq<char>,
    info: MessageInfoView,
    operation: SwapOperationView,
    error: E,
    host: ExecuteHost<E>,
)
    ensures
        ({
            let end = outcome(
                execute_step(contract, info, ExecuteMsgView::OraidexPoolSwap { operation }),
                host,
            );
            let held = (host.current_asset)(operation.denom_in);
            let nothing = {
                ||| held matches Ok(AssetView::Native(coin)) && coin.amount == 0
                ||| held matches Ok(AssetView::Cw20(coin)) && coin.amount == 0
            };
            let swap_msg = (host.swap_msg)(operation);
            &&& end == ExecuteEnd::<E>::Responded(Err(ContractError::Unauthorized))
                <==> info.sender != contract
            &&& end == ExecuteEnd::<E>::Responded(Err(ContractError::NoOfferAssetAmount))
                <==> info.sender == contract && nothing
            &&& end == ExecuteEnd::<E>::Responded(Err(ContractError::Outside(error)))
                <==> info.sender == contract && {
                    ||| held == Err::<AssetView, E>(error)
                    ||| held is Ok && !nothing && (swap_msg matches Err(reason) && reason == error)
                    ||| held is Ok && !nothing && (swap_msg matches Ok(msg) && ((
                    host.into_wasm_msg)(held->Ok_0, msg.contract_addr, msg.msg) matches Err(reason)
                        && reason == error))
                }
        }),
{
    message_ends_as_told(contract, info, ExecuteMsgView::OraidexPoolSwap { operation }, host);
}

/// Funds are transferred back whoever asks for it, to whom and of what the
/// message says, whatever the state of the chain; and no other message ends so.
pub proof fn when_funds_are_transferred_back<E>(
    contract: Seq<char>,
    info: MessageInfoView,
    msg: ExecuteMsgView,
    swapper: Seq<char>,
    return_denom: Seq<char>,
    host: ExecuteHost<E>,
)
    ensures
        outcome(execute_step(contract, info, msg), host) == (ExecuteEnd::<
            E,
        >::TransferFundsBack { swapper, return_denom }) <==> msg == (
        ExecuteMsgView::TransferFundsBack { swapper, return_denom }),
{
    message_ends_as_told(contract, info, msg, host);
}

/// Notice of tokens comes to the same, as a message or by itself.
pub proof fn notice_of_tokens_is_a_message<E>(
    contract: Seq<char>,
    info: MessageInfoView,
    cw20_msg: Cw20ReceiveMsgView,
    host: ExecuteHost<E>,
)
    ensures
        outcome(receive_step(contract, info, cw20_msg), host) == outcome(
            execute_step(contract, info, ExecuteMsgView::Receive(cw20_msg)),
            host,
        ),
{
}

/// Each question is about what its step holds, and the message goes on with the
/// answer to that question alone.
pub proof fn what_the_chain_is_asked_of_a_message<E>(
    step: ExecuteStepView<E>,
    host: ExecuteHost<E>,
)
    ensures
        outcome(step, host) == match step {
            ExecuteStepView::Done(result) => ExecuteEnd::Responded(result),
            ExecuteStepView::TransferFundsBack { swapper, return_denom } => {
                ExecuteEnd::TransferFundsBack { swapper, return_denom }
            },
            ExecuteStepView::ValidateAsset(receipt) => outcome(
                after_validate_asset(
                    receipt,
                    (host.validate_asset)(receipt.contract, receipt.info, receipt.asset),
                ),
                host,
            ),
            ExecuteStepView::ValidateSender(received) => outcome(
                after_validate_sender(
                    received,
                    (host.validate_address)(received.cw20_msg.sender),
                ),
                host,
            ),
            ExecuteStepView::ParseHook(hook) => outcome(
                after_parse_hook(hook, (host.parse_hook)(hook.msg)),
                host,
            ),
            ExecuteStepView::LoadEntryPoint(request) => outcome(
                after_load_entry_point(request, host.entry_point),
                host,
            ),
            ExecuteStepView::CurrentAsset(pool_swap) => outcome(
                after_current_asset(
                    pool_swap,
                    (host.current_asset)(pool_swap.operation.denom_in),
                ),
                host,
            ),
            ExecuteStepView::SwapMsg(offer) => outcome(
                after_swap_msg(offer, (host.swap_msg)(offer.operation)),
                host,
            ),
            ExecuteStepView::IntoWasmMsg(handover) => outcome(
                after_into_wasm_msg(
                    (host.into_wasm_msg)(
                        handover.offer_asset,
                        handover.swap_msg.contract_addr,
                        handover.swap_msg.msg,
                    ),
                ),
                host,
            ),
        },
{
    reveal_with_fuel(outcome, 2);
}

} // verus!
