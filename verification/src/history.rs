//! What holds of an adapter over its whole life.
use vstd::prelude::*;

use crate::error::ContractError;
use crate::execute::laws::{message_ends_as_told, the_entry_point_alone_is_let_in};
use crate::execute::meaning::{answered, outcome as execute_outcome, rank, ExecuteEnd, ExecuteHost};
use crate::execute::state::ExecuteStepView;
use crate::execute::step::{execute_step, swap_response, transfer_back_message};
use crate::instantiate::laws::{
    a_set_up_adapter_holds_valid_addresses, outcome as instantiate_outcome, InstantiateHost, Stored,
};
use crate::instantiate::step::{instantiate_step, InstantiateMsgView};
use crate::message::{Cw20ReceiveMsgView, ExecuteMsgView, MessageInfoView, ResponseView};
use crate::operation::SwapOperationView;

verus! {

/// A call that can follow once the adapter is set up.
#[verifier::reject_recursive_types(E)]
pub enum Call<E> {
    /// Moving to a later version: it ends at once, with an empty response.
    Migrate,
    /// A message, its questions answered by `host`. Where it ends with a transfer
    /// of the funds back, which is not done by the adapter, `transfer_stores` is
    /// what that stores.
    Execute {
        contract: Seq<char>,
        info: MessageInfoView,
        msg: ExecuteMsgView,
        host: ExecuteHost<E>,
        transfer_stores: Seq<Stored>,
    },
}

/// What is stored from `step` on. A question asks for nothing to be stored, nor
/// does a response.
pub open spec fn stored_from<E>(
    step: ExecuteStepView<E>,
    host: ExecuteHost<E>,
    transfer_stores: Seq<Stored>,
) -> Seq<Stored>
    decreases rank(step),
{
    match step {
        ExecuteStepView::Done(_) => seq![],
        ExecuteStepView::TransferFundsBack { .. } => transfer_stores,
        _ => stored_from(answered(step, host), host, transfer_stores),
    }
}

/// What is stored after a call, `stored` being so before.
pub open spec fn after_call<E>(stored: Seq<Stored>, call: Call<E>) -> Seq<Stored> {
    match call {
        Call::Migrate => stored,
        Call::Execute { contract, info, msg, host, transfer_stores } => stored + stored_from(
            execute_step(contract, info, msg),
            host,
            transfer_stores,
        ),
    }
}

/// What is stored after calls, one after the other.
pub open spec fn after_calls<E>(stored: Seq<Stored>, calls: Seq<Call<E>>) -> Seq<Stored>
    decreases calls.len(),
{
    if calls.len() == 0 {
        stored
    } else {
        after_call(after_calls(stored, calls.drop_last()), calls.last())
    }
}

/// The entry point that was stored last.
pub open spec fn entry_point_in(stored: Seq<Stored>) -> Option<Seq<char>>
    decreases stored.len(),
{
    if stored.len() == 0 {
        None
    } else {
        match stored.last() {
            Stored::EntryPoint(entry_point) => Some(entry_point),
            _ => entry_point_in(stored.drop_last()),
        }
    }
}

/// Whether transferring funds back, outside the adapter, stores no entry point.
pub open spec fn transfers_spare_the_entry_point<E>(call: Call<E>) -> bool {
    call matches Call::Execute { transfer_stores, .. } ==> forall|i: int|
        0 <= i < transfer_stores.len() ==> !(#[trigger] transfer_stores[i] is EntryPoint)
}

/// Storing other things leaves the entry point that was stored last.
proof fn lemma_entry_point_stays(stored: Seq<Stored>, more: Seq<Stored>)
    requires
        forall|i: int| 0 <= i < more.len() ==> !(#[trigger] more[i] is EntryPoint),
    ensures
        entry_point_in(stored + more) == entry_point_in(stored),
    decreases more.len(),
{
    if more.len() == 0 {
        assert(stored + more =~= stored);
    } else {
        assert((stored + more).drop_last() =~= stored + more.drop_last());
        assert((stored + more).last() == more[more.len() - 1]);
        assert forall|i: int| 0 <= i < more.drop_last().len() implies !(
        #[trigger] more.drop_last()[i] is EntryPoint) by {
            assert(more[i] == more.drop_last()[i]);
        }
        lemma_entry_point_stays(stored, more.drop_last());
    }
}

/// A message stores nothing but what a transfer of funds back does.
proof fn lemma_a_message_stores_nothing<E>(
    step: ExecuteStepView<E>,
    host: ExecuteHost<E>,
    transfer_stores: Seq<Stored>,
)
    ensures
        stored_from(step, host, transfer_stores) == (if execute_outcome(step, host)
            is TransferFundsBack {
            transfer_stores
        } else {
            seq![]
        }),
    decreases rank(step),
{
    match step {
        ExecuteStepView::Done(_) => {},
        ExecuteStepView::TransferFundsBack { .. } => {},
        _ => {
            lemma_a_message_stores_nothing(answered(step, host), host, transfer_stores);
        },
    }
}

/// No message and no migration changes the entry point, however many there are.
pub proof fn no_call_changes_the_entry_point<E>(stored: Seq<Stored>, calls: Seq<Call<E>>)
    requires
        forall|i: int|
            0 <= i < calls.len() ==> transfers_spare_the_entry_point(#[trigger] calls[i]),
    ensures
        entry_point_in(after_calls(stored, calls)) == entry_point_in(stored),
    decreases calls.len(),
{
    if calls.len() > 0 {
        let before = calls.drop_last();
        assert forall|i: int| 0 <= i < before.len() implies transfers_spare_the_entry_point(
            #[trigger] before[i],
        ) by {
            assert(before[i] == calls[i]);
        }
        no_call_changes_the_entry_point(stored, before);
        assert(transfers_spare_the_entry_point(calls[calls.len() - 1]));
        if let Call::Execute { contract, info, msg, host, transfer_stores } = calls.last() {
            let step = execute_step(contract, info, msg);
            lemma_a_message_stores_nothing(step, host, transfer_stores);
            lemma_entry_point_stays(
                after_calls(stored, before),
                stored_from(step, host, transfer_stores),
            );
        }
    }
}

/// Setting up stores the entry point that its message stands for.
proof fn lemma_set_up_entry_point<E>(
    name: Seq<char>,
    version: Seq<char>,
    msg: InstantiateMsgView,
    host: InstantiateHost<E>,
)
    requires
        instantiate_outcome(seq![], instantiate_step(name, version, msg), host).result is Ok,
    ensures
        (host.validate_address)(msg.entry_point_contract_address) matches Ok(entry_point)
            && entry_point_in(
            instantiate_outcome(seq![], instantiate_step(name, version, msg), host).stored,
        ) == Some(entry_point),
{
    a_set_up_adapter_holds_valid_addresses(name, version, msg, host);
    reveal_with_fuel(entry_point_in, 3);
}

/// Who may swap coins, and who gets the funds, never changes: once the adapter is
/// set up, and after any number of messages and migrations, on a chain that gives
/// back the entry point stored last, only the entry point that it was set up for
/// gets a swap, and the funds go back to it.
pub proof fn coins_are_swapped_for_whom_the_adapter_was_set_up<E>(
    name: Seq<char>,
    version: Seq<char>,
    msg: InstantiateMsgView,
    host: InstantiateHost<E>,
    calls: Seq<Call<E>>,
    contract: Seq<char>,
    info: MessageInfoView,
    operations: Seq<SwapOperationView>,
    response: ResponseView,
    later: ExecuteHost<E>,
)
    requires
        instantiate_outcome(seq![], instantiate_step(name, version, msg), host).result is Ok,
        forall|i: int|
            0 <= i < calls.len() ==> transfers_spare_the_entry_point(#[trigger] calls[i]),
        entry_point_in(
            after_calls(
                instantiate_outcome(seq![], instantiate_step(name, version, msg), host).stored,
                calls,
            ),
        ) matches Some(entry_point) ==> later.entry_point == Ok::<_, E>(entry_point),
        execute_outcome(execute_step(contract, info, ExecuteMsgView::Swap { operations }), later)
            == ExecuteEnd::<E>::Responded(Ok(response)),
    ensures
        (host.validate_address)(msg.entry_point_contract_address) == Ok::<_, E>(info.sender),
        response.messages.last() == transfer_back_message(
            contract,
            info.sender,
            operations.last().denom_out,
        ),
{
    let stored = instantiate_outcome(seq![], instantiate_step(name, version, msg), host).stored;
    lemma_set_up_entry_point(name, version, msg, host);
    no_call_changes_the_entry_point(stored, calls);
    message_ends_as_told(contract, info, ExecuteMsgView::Swap { operations }, later);
}

/// The same of tokens: only those that the entry point of the set-up sent are
/// swapped, and the funds go back to it.
pub proof fn tokens_are_swapped_for_whom_the_adapter_was_set_up<E>(
    name: Seq<char>,
    version: Seq<char>,
    msg: InstantiateMsgView,
    host: InstantiateHost<E>,
    calls: Seq<Call<E>>,
    contract: Seq<char>,
    info: MessageInfoView,
    cw20_msg: Cw20ReceiveMsgView,
    response: ResponseView,
    later: ExecuteHost<E>,
)
    requires
        instantiate_outcome(seq![], instantiate_step(name, version, msg), host).result is Ok,
        forall|i: int|
            0 <= i < calls.len() ==> transfers_spare_the_entry_point(#[trigger] calls[i]),
        entry_point_in(
            after_calls(
                instantiate_outcome(seq![], instantiate_step(name, version, msg), host).stored,
                calls,
            ),
        ) matches Some(entry_point) ==> later.entry_point == Ok::<_, E>(entry_point),
        execute_outcome(execute_step(contract, info, ExecuteMsgView::Receive(cw20_msg)), later)
            == ExecuteEnd::<E>::Responded(Ok(response)),
    ensures
        (host.validate_address)(msg.entry_point_contract_address) matches Ok(entry_point) && (
        later.validate_address)(cw20_msg.sender) == Ok::<_, E>(entry_point) && exists|
            return_denom: Seq<char>,
        |
            response.messages.last() == #[trigger] transfer_back_message(
                contract,
                entry_point,
                return_denom,
            ),
{
    let stored = instantiate_outcome(seq![], instantiate_step(name, version, msg), host).stored;
    lemma_set_up_entry_point(name, version, msg, host);
    no_call_changes_the_entry_point(stored, calls);
    message_ends_as_told(contract, info, ExecuteMsgView::Receive(cw20_msg), later);
}

/// Whoever is not the entry point of the set-up stays refused, and the entry
/// point of the set-up stays let in, with a swap that nothing else stands
/// against.
pub proof fn who_is_let_in_never_changes<E>(
    name: Seq<char>,
    version: Seq<char>,
    msg: InstantiateMsgView,
    host: InstantiateHost<E>,
    calls: Seq<Call<E>>,
    contract: Seq<char>,
    info: MessageInfoView,
    operations: Seq<SwapOperationView>,
    later: ExecuteHost<E>,
)
    requires
        instantiate_outcome(seq![], instantiate_step(name, version, msg), host).result is Ok,
        forall|i: int|
            0 <= i < calls.len() ==> transfers_spare_the_entry_point(#[trigger] calls[i]),
        entry_point_in(
            after_calls(
                instantiate_outcome(seq![], instantiate_step(name, version, msg), host).stored,
                calls,
            ),
        ) matches Some(entry_point) ==> later.entry_point == Ok::<_, E>(entry_point),
        operations.len() > 0,
        info.funds.len() == 1,
        info.funds[0].amount > 0,
        info.funds[0].denom == operations.first().denom_in,
    ensures
        (host.validate_address)(msg.entry_point_contract_address) matches Ok(entry_point) && (
        execute_outcome(execute_step(contract, info, ExecuteMsgView::Swap { operations }), later)
            == ExecuteEnd::<E>::Responded(
            if info.sender == entry_point {
                Ok(swap_response(contract, entry_point, operations))
            } else {
                Err(ContractError::Unauthorized)
            },
        )),
{
    let stored = instantiate_outcome(seq![], instantiate_step(name, version, msg), host).stored;
    lemma_set_up_entry_point(name, version, msg, host);
    no_call_changes_the_entry_point(stored, calls);
    let entry_point = (host.validate_address)(msg.entry_point_contract_address)->Ok_0;
    the_entry_point_alone_is_let_in(contract, info, operations, entry_point, later);
}

} // verus!
