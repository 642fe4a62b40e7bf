//! What comes of setting the adapter up, and what holds of it.
use vstd::prelude::*;

use crate::error::ContractError;
use crate::instantiate::step::{
    after_save_entry_point, after_save_router, after_set_contract_version,
    after_validate_entry_point, after_validate_router, instantiate_response, instantiate_step,
    InstantiateMsgView, InstantiateStepView,
};
use crate::message::ResponseView;

verus! {

/// What the chain answers when the adapter is set up.
#[verifier::reject_recursive_types(E)]
pub struct InstantiateHost<E> {
    /// Whether a name and a version are stored.
    pub set_contract_version: spec_fn(Seq<char>, Seq<char>) -> Result<(), E>,
    /// The address that a text stands for.
    pub validate_address: spec_fn(Seq<char>) -> Result<Seq<char>, E>,
    /// Whether the address of the entry point is stored.
    pub save_entry_point: spec_fn(Seq<char>) -> Result<(), E>,
    /// Whether the address of the router is stored.
    pub save_router: spec_fn(Seq<char>) -> Result<(), E>,
}

/// Something stored.
#[verifier::ext_equal]
pub enum Stored {
    Version { name: Seq<char>, version: Seq<char> },
    EntryPoint(Seq<char>),
    Router(Seq<char>),
}

/// How setting up ends: what was stored, in order, and what is responded.
#[verifier::ext_equal]
pub struct InstantiateEnd<E> {
    pub stored: Seq<Stored>,
    pub result: Result<ResponseView, ContractError<E>>,
}

/// What was stored so far, and one thing more if it was stored.
pub open spec fn store<E>(stored: Seq<Stored>, more: Stored, answer: Result<(), E>) -> Seq<Stored> {
    if answer is Ok {
        stored.push(more)
    } else {
        stored
    }
}

/// How many answers may still be needed.
pub open spec fn rank<E>(step: InstantiateStepView<E>) -> nat {
    match step {
        InstantiateStepView::SetContractVersion(_) => 5,
        InstantiateStepView::ValidateEntryPoint(_) => 4,
        InstantiateStepView::ValidateRouter(_) => 3,
        InstantiateStepView::SaveEntryPoint(_) => 2,
        InstantiateStepView::SaveRouter(_) => 1,
        InstantiateStepView::Done(_) => 0,
    }
}

/// How setting up ends from `step` on, once `stored` is stored, each step
/// answered by `host` and the answer handed back until the end.
pub open spec fn outcome<E>(
    stored: Seq<Stored>,
    step: InstantiateStepView<E>,
    host: InstantiateHost<E>,
) -> InstantiateEnd<E>
    decreases rank(step),
{
    match step {
        InstantiateStepView::Done(result) => InstantiateEnd { stored, result },
        InstantiateStepView::SetContractVersion(naming) => {
            let answer = (host.set_contract_version)(naming.name, naming.version);
            let version = Stored::Version { name: naming.name, version: naming.version };
            outcome(
                store(stored, version, answer),
                after_set_contract_version(naming, answer),
                host,
            )
        },
        InstantiateStepView::ValidateEntryPoint(check) => outcome(
            stored,
            after_validate_entry_point(
                check,
                (host.validate_address)(check.msg.entry_point_contract_address),
            ),
            host,
        ),
        InstantiateStepView::ValidateRouter(check) => outcome(
            stored,
            after_validate_router(check, (host.validate_address)(check.input)),
            host,
        ),
        InstantiateStepView::SaveEntryPoint(save) => {
            let answer = (host.save_entry_point)(save.entry_point);
            outcome(
                store(stored, Stored::EntryPoint(save.entry_point), answer),
                after_save_entry_point(save, answer),
                host,
            )
        },
        InstantiateStepView::SaveRouter(save) => {
            let answer = (host.save_router)(save.router);
            outcome(
                store(stored, Stored::Router(save.router), answer),
                after_save_router(save, answer),
                host,
            )
        },
    }
}

impl<E> InstantiateHost<E> {
    /// How setting up under a name and a version ends. The first thing that the
    /// chain does not do ends it, with the error that the chain gives.
    pub open spec fn end(
        self,
        name: Seq<char>,
        version: Seq<char>,
        msg: InstantiateMsgView,
    ) -> InstantiateEnd<E> {
        let named = seq![Stored::Version { name, version }];
        match (self.set_contract_version)(name, version) {
            Err(error) => failed(seq![], error),
            Ok(_) => match (self.validate_address)(msg.entry_point_contract_address) {
                Err(error) => failed(named, error),
                Ok(entry_point) => match (self.validate_address)(
                    msg.oraidex_router_contract_address,
                ) {
                    Err(error) => failed(named, error),
                    Ok(router) => match (self.save_entry_point)(entry_point) {
                        Err(error) => failed(named, error),
                        Ok(_) => match (self.save_router)(router) {
                            Err(error) => failed(
                                named.push(Stored::EntryPoint(entry_point)),
                                error,
                            ),
                            Ok(_) => InstantiateEnd {
                                stored: named.push(Stored::EntryPoint(entry_point)).push(
                                    Stored::Router(router),
                                ),
                                result: Ok(instantiate_response(entry_point)),
                            },
                        },
                    },
                },
            },
        }
    }
}

/// Setting up ended with an error.
pub open spec fn failed<E>(stored: Seq<Stored>, error: E) -> InstantiateEnd<E> {
    InstantiateEnd { stored, result: Err(ContractError::Outside(error)) }
}

/// Setting up, each step answered by `host` one after the other, ends as `host`
/// has it.
pub proof fn setting_up_ends_as_told<E>(
    name: Seq<char>,
    version: Seq<char>,
    msg: InstantiateMsgView,
    host: InstantiateHost<E>,
)
    ensures
        outcome(seq![], instantiate_step(name, version, msg), host) == host.end(
            name,
            version,
            msg,
        ),
{
    reveal_with_fuel(outcome, 6);
    assert(Seq::<Stored>::empty().push(Stored::Version { name, version }) =~= seq![
        Stored::Version { name, version },
    ]);
}

/// An adapter that was set up holds valid addresses only: those that its
/// message stands for.
pub proof fn a_set_up_adapter_holds_valid_addresses<E>(
    name: Seq<char>,
    version: Seq<char>,
    msg: InstantiateMsgView,
    host: InstantiateHost<E>,
)
    requires
        outcome(seq![], instantiate_step(name, version, msg), host).result is Ok,
    ensures
        ({
            let stored = outcome(seq![], instantiate_step(name, version, msg), host).stored;
            &&& stored.len() == 3
            &&& stored[0] == (Stored::Version { name, version })
            &&& stored[1] matches Stored::EntryPoint(entry_point) && (host.validate_address)(
                msg.entry_point_contract_address,
            ) == Ok::<_, E>(entry_point)
            &&& stored[2] matches Stored::Router(router) && (host.validate_address)(
                msg.oraidex_router_contract_address,
            ) == Ok::<_, E>(router)
        }),
{
    setting_up_ends_as_told(name, version, msg, host);
}

/// Where an address of the message is not valid, neither address is stored.
pub proof fn an_invalid_address_is_not_stored<E>(
    name: Seq<char>,
    version: Seq<char>,
    msg: InstantiateMsgView,
    host: InstantiateHost<E>,
)
    requires
        (host.validate_address)(msg.entry_point_contract_address) is Err || (host.validate_address)(
            msg.oraidex_router_contract_address,
        ) is Err,
    ensures
        ({
            let end = outcome(seq![], instantiate_step(name, version, msg), host);
            &&& end.result is Err
            &&& forall|i: int|
                0 <= i < end.stored.len() ==> #[trigger] end.stored[i] is Version
        }),
{
    setting_up_ends_as_told(name, version, msg, host);
}

} // verus!
