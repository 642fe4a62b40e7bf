//! What holds of every message.
use vstd::prelude::*;

use crate::asset::{AssetView, CoinView, Cw20CoinView};
use crate::error::ContractError;
use crate::execute::meaning::{outcome, ExecuteEnd, ExecuteHost};
use crate::execute::state::{ExecuteStepView, PoolSwapView, SwapRequestView};
use crate::execute::step::{execute_step, swap_response};
use crate::message::{
    Cw20HookMsgView, Cw20ReceiveMsgView, ExecuteMsgView, MessageInfoView, MessageView, ResponseView,
};
use crate::operation::SwapOperationView;

verus! {

/// A message whose questions are answered by `host`, one after the other, ends
/// as `host` has it.
pub proof fn message_ends_as_told<E>(
    contract: Seq<char>,
    info: MessageInfoView,
    msg: ExecuteMsgView,
    host: ExecuteHost<E>,
)
    ensures
        outcome(execute_step(contract, info, msg), host) == host.end(contract, info, msg),
{
    reveal_with_fuel(outcome, 5);
}

/// Operations are carried out for the entry point only: where a swap gets a
/// response, whoever sent the coin is the entry point.
pub proof fn only_the_entry_point_swaps_coins<E>(
    contract: Seq<char>,
    info: MessageInfoView,
    operations: Seq<SwapOperationView>,
    response: ResponseView,
    host: ExecuteHost<E>,
)
    requires
        outcome(execute_step(contract, info, ExecuteMsgView::Swap { operations }), host)
            == ExecuteEnd::<E>::Responded(Ok(response)),
    ensures
        host.entry_point == Ok::<_, E>(info.sender),
        response == swap_response(contract, info.sender, operations),
{
    message_ends_as_told(contract, info, ExecuteMsgView::Swap { operations }, host);
}

/// The same with tokens: whoever sent them to the adapter is the entry point,
/// not the ledger that gives notice of them, and the response is that to the
/// operations in their message.
pub proof fn only_the_entry_point_swaps_tokens<E>(
    contract: Seq<char>,
    info: MessageInfoView,
    cw20_msg: Cw20ReceiveMsgView,
    response: ResponseView,
    host: ExecuteHost<E>,
)
    requires
        outcome(execute_step(contract, info, ExecuteMsgView::Receive(cw20_msg)), host)
            == ExecuteEnd::<E>::Responded(Ok(response)),
    ensures
        host.entry_point matches Ok(entry_point) && (host.validate_address)(cw20_msg.sender)
            == Ok::<_, E>(entry_point) && ((host.parse_hook)(cw20_msg.msg)
            matches Ok(Cw20HookMsgView::Swap { operations }) && response == swap_response(
            contract,
            entry_point,
            operations,
        )),
{
    message_ends_as_told(contract, info, ExecuteMsgView::Receive(cw20_msg), host);
}

/// A swap of coins that nothing else stands against is refused to everyone but
/// the entry point, and granted to it.
pub proof fn the_entry_point_alone_is_let_in<E>(
    contract: Seq<char>,
    info: MessageInfoView,
    operations: Seq<SwapOperationView>,
    entry_point: Seq<char>,
    host: ExecuteHost<E>,
)
    requires
        host.entry_point == Ok::<_, E>(entry_point),
        operations.len() > 0,
        info.funds.len() == 1,
        info.funds[0].amount > 0,
        info.funds[0].denom == operations.first().denom_in,
    ensures
        outcome(execute_step(contract, info, ExecuteMsgView::Swap { operations }), host)
            == ExecuteEnd::<E>::Responded(
            if info.sender == entry_point {
                Ok(swap_response(contract, entry_point, operations))
            } else {
                Err(ContractError::Unauthorized)
            },
        ),
{
    message_ends_as_told(contract, info, ExecuteMsgView::Swap { operations }, host);
}

/// One operation is carried out for the adapter itself only; anyone else is
/// refused, whatever the state of the chain.
pub proof fn only_the_adapter_swaps_in_a_pool<E>(
    contract: Seq<char>,
    info: MessageInfoView,
    operation: SwapOperationView,
    host: ExecuteHost<E>,
)
    requires
        info.sender != contract,
    ensures
        outcome(execute_step(contract, info, ExecuteMsgView::OraidexPoolSwap { operation }), host)
            == ExecuteEnd::<E>::Responded(Err(ContractError::Unauthorized)),
{
    message_ends_as_told(contract, info, ExecuteMsgView::OraidexPoolSwap { operation }, host);
}

/// An operation hands over all that is held of its input, in one call, and never
/// nothing.
pub proof fn a_pool_swap_offers_all_there_is<E>(
    contract: Seq<char>,
    info: MessageInfoView,
    operation: SwapOperationView,
    response: ResponseView,
    host: ExecuteHost<E>,
)
    requires
        outcome(execute_step(contract, info, ExecuteMsgView::OraidexPoolSwap { operation }), host)
            == ExecuteEnd::<E>::Responded(Ok(response)),
    ensures
        (host.current_asset)(operation.denom_in) matches Ok(offer_asset) && offer_asset.amount() > 0
            && ((host.swap_msg)(operation) matches Ok(swap_msg) && ((host.into_wasm_msg)(
            offer_asset,
            swap_msg.contract_addr,
            swap_msg.msg,
        ) matches Ok(wasm_msg) && response.messages == seq![MessageView::Wasm(wasm_msg)])),
{
    message_ends_as_told(contract, info, ExecuteMsgView::OraidexPoolSwap { operation }, host);
}

/// A swap sends one message for each operation, in their order, and one more
/// that returns the output of the last; all go to the adapter itself, without
/// coins.
pub proof fn a_swap_sends_each_operation_in_order(
    contract: Seq<char>,
    entry_point: Seq<char>,
    operations: Seq<SwapOperationView>,
)
    requires
        operations.len() > 0,
    ensures
        ({
            let messages = swap_response(contract, entry_point, operations).messages;
            &&& messages.len() == operations.len() + 1
            &&& forall|i: int|
                0 <= i < operations.len() ==> #[trigger] messages[i] == (MessageView::Execute {
                    contract_addr: contract,
                    msg: ExecuteMsgView::OraidexPoolSwap { operation: operations[i] },
                    funds: Seq::<CoinView>::empty(),
                })
            &&& messages.last() == (MessageView::Execute {
                contract_addr: contract,
                msg: ExecuteMsgView::TransferFundsBack {
                    swapper: entry_point,
                    return_denom: operations.last().denom_out,
                },
                funds: Seq::<CoinView>::empty(),
            })
        }),
{
}

/// The adapter lets in the messages that a swap sends to it: coming from the
/// adapter itself, each operation goes on to look for what there is to offer of
/// its input, and the last message returns the funds to the entry point.
pub proof fn the_adapter_lets_its_own_messages_in<E>(
    contract: Seq<char>,
    entry_point: Seq<char>,
    operations: Seq<SwapOperationView>,
    i: int,
)
    requires
        0 <= i <= operations.len(),
        operations.len() > 0,
    ensures
        swap_response(contract, entry_point, operations).messages[i]
            matches MessageView::Execute { contract_addr, msg, funds } && contract_addr == contract
            && execute_step::<E>(contract, MessageInfoView { sender: contract, funds }, msg) == (
        if i < operations.len() {
            ExecuteStepView::<E>::CurrentAsset(PoolSwapView { operation: operations[i] })
        } else {
            ExecuteStepView::<E>::TransferFundsBack {
                swapper: entry_point,
                return_denom: operations.last().denom_out,
            }
        }),
{
}

/// Tokens are swapped as coins are: once they are received and their message
/// read, the operations in it get the response that they get with a coin of
/// what the first one takes in.
pub proof fn tokens_are_swapped_as_coins_are<E>(
    contract: Seq<char>,
    info: MessageInfoView,
    cw20_msg: Cw20ReceiveMsgView,
    coin_info: MessageInfoView,
    operations: Seq<SwapOperationView>,
    host: ExecuteHost<E>,
)
    requires
        outcome(execute_step(contract, coin_info, ExecuteMsgView::Swap { operations }), host)
            matches ExecuteEnd::Responded(Ok(_)),
        (host.validate_address)(cw20_msg.sender) == Ok::<_, E>(coin_info.sender),
        (host.parse_hook)(cw20_msg.msg) == Ok::<_, E>(Cw20HookMsgView::Swap { operations }),
    ensures
        outcome(execute_step(contract, info, ExecuteMsgView::Receive(cw20_msg)), host) == match (
        host.validate_asset)(
            contract,
            info,
            AssetView::Cw20(
                Cw20CoinView { address: info.sender, amount: cw20_msg.amount },
            ),
        ) {
            Ok(_) => outcome(
                execute_step(contract, coin_info, ExecuteMsgView::Swap { operations }),
                host,
            ),
            Err(error) => ExecuteEnd::Responded(Err(ContractError::Outside(error))),
        },
{
    message_ends_as_told(contract, info, ExecuteMsgView::Receive(cw20_msg), host);
    message_ends_as_told(contract, coin_info, ExecuteMsgView::Swap { operations }, host);
}

/// What a swap comes to rests on who sent it, on the adapter's own address, on
/// the entry point and on the operations, and on nothing else: not on the coins,
/// nor on the state of the chain otherwise.
pub proof fn a_swap_rests_on_its_parties_and_operations<E>(
    request: SwapRequestView,
    host: ExecuteHost<E>,
    other: ExecuteHost<E>,
)
    requires
        host.entry_point == other.entry_point,
    ensures
        outcome(ExecuteStepView::LoadEntryPoint(request), host) == outcome(
            ExecuteStepView::LoadEntryPoint(request),
            other,
        ),
        forall|info: MessageInfoView|
            info.sender == request.sender && request.operations.len() > 0 && info.funds.len() == 1
                && info.funds[0].amount > 0 && info.funds[0].denom
                == request.operations.first().denom_in ==> #[trigger] outcome(
                execute_step(
                    request.contract,
                    info,
                    ExecuteMsgView::Swap { operations: request.operations },
                ),
                other,
            ) == outcome(ExecuteStepView::LoadEntryPoint(request), host),
{
    reveal_with_fuel(outcome, 2);
}

/// Operations of two lists joined send the messages of the first list but for
/// the return of its funds, and then those of the second.
pub proof fn joined_operations_send_joined_messages<E>(
    request: SwapRequestView,
    a: Seq<SwapOperationView>,
    b: Seq<SwapOperationView>,
    entry_point: Seq<char>,
    host: ExecuteHost<E>,
)
    requires
        a.len() > 0,
        b.len() > 0,
        host.entry_point == Ok::<_, E>(entry_point),
        request.sender == entry_point,
        request.operations == a + b,
    ensures
        ({
            let of_a = swap_response(request.contract, entry_point, a);
            let of_b = swap_response(request.contract, entry_point, b);
            let joined = swap_response(request.contract, entry_point, a + b);
            &&& outcome(
                ExecuteStepView::LoadEntryPoint(SwapRequestView { operations: a, ..request }),
                host,
            ) == ExecuteEnd::<E>::Responded(Ok(of_a))
            &&& outcome(
                ExecuteStepView::LoadEntryPoint(SwapRequestView { operations: b, ..request }),
                host,
            ) == ExecuteEnd::<E>::Responded(Ok(of_b))
            &&& outcome(ExecuteStepView::LoadEntryPoint(request), host)
                == ExecuteEnd::<E>::Responded(Ok(joined))
            &&& joined.messages == of_a.messages.drop_last() + of_b.messages
        }),
{
    reveal_with_fuel(outcome, 2);
    let of_a = swap_response(request.contract, entry_point, a);
    let of_b = swap_response(request.contract, entry_point, b);
    let joined = swap_response(request.contract, entry_point, a + b);
    assert(joined.messages =~= of_a.messages.drop_last() + of_b.messages);
}

} // verus!
