//! What setting up comes to, said of what was sent and what the chain does.
use vstd::prelude::*;

use crate::error::ContractError;
use crate::instantiate::laws::{
    outcome, setting_up_ends_as_told, InstantiateEnd, InstantiateHost, Stored,
};
use crate::instantiate::step::{
    after_save_entry_point, after_save_router, after_set_contract_version,
    after_validate_entry_point, after_validate_router, instantiate_step, InstantiateMsgView,
    InstantiateStepView,
};
use crate::message::{AttributeView, MessageView, ResponseView};

verus! {

/// Setting up succeeds exactly where the chain stores the version, has an
/// address for each of the two texts and stores both, whatever they are. Then the
/// version, the entry point and the router are stored, in this order and once
/// each, nothing is sent, and two remarks name what was done and the entry point.
pub proof fn when_the_adapter_is_set_up<E>(
    name: Seq<char>,
    version: Seq<char>,
    msg: InstantiateMsgView,
    entry_point: Seq<char>,
    router: Seq<char>,
    host: InstantiateHost<E>,
)
    requires
        (host.validate_address)(msg.entry_point_contract_address) == Ok::<_, E>(entry_point),
        (host.validate_address)(msg.oraidex_router_contract_address) == Ok::<_, E>(router),
    ensures
        ({
            let end = outcome(seq![], instantiate_step(name, version, msg), host);
            &&& end.result is Ok <==> {
                &&& (host.set_contract_version)(name, version) is Ok
                &&& (host.save_entry_point)(entry_point) is Ok
                &&& (host.save_router)(router) is Ok
            }
            &&& end.result matches Ok(response) ==> {
                &&& end.stored == seq![
                    Stored::Version { name, version },
                    Stored::EntryPoint(entry_point),
                    Stored::Router(router),
                ]
                &&& response.messages == Seq::<MessageView>::empty()
                &&& response.attributes == seq![
                    AttributeView { key: "action"@, value: "instantiate"@ },
                    AttributeView { key: "entry_point_contract_address"@, value: entry_point },
                ]
            }
        }),
{
    setting_up_ends_as_told(name, version, msg, host);
}

/// Setting up fails with an error that the chain gave, and for no other reason:
/// it is that of the first thing that the chain would not do, and what came
/// before it is all that is stored.
pub proof fn why_the_adapter_is_not_set_up<E>(
    name: Seq<char>,
    version: Seq<char>,
    msg: InstantiateMsgView,
    error: ContractError<E>,
    host: InstantiateHost<E>,
)
    requires
        outcome(seq![], instantiate_step(name, version, msg), host).result == Err::<
            ResponseView,
            ContractError<E>,
        >(error),
    ensures
        ({
            let stored = outcome(seq![], instantiate_step(name, version, msg), host).stored;
            let named = (host.set_contract_version)(name, version);
            let entry_point = (host.validate_address)(msg.entry_point_contract_address);
            let router = (host.validate_address)(msg.oraidex_router_contract_address);
            let entry_point_saved = (host.save_entry_point)(entry_point->Ok_0);
            let router_saved = (host.save_router)(router->Ok_0);
            let version_only = seq![Stored::Version { name, version }];
            &&& error is Outside
            &&& if named is Err {
                named == Err::<(), E>(error->Outside_0) && stored == Seq::<Stored>::empty()
            } else if entry_point is Err {
                entry_point == Err::<Seq<char>, E>(error->Outside_0) && stored == version_only
            } else if router is Err {
                router == Err::<Seq<char>, E>(error->Outside_0) && stored == version_only
            } else if entry_point_saved is Err {
                entry_point_saved == Err::<(), E>(error->Outside_0) && stored == version_only
            } else {
                router_saved == Err::<(), E>(error->Outside_0) && stored == seq![
                    Stored::Version { name, version },
                    Stored::EntryPoint(entry_point->Ok_0),
                ]
            }
        }),
{
    setting_up_ends_as_told(name, version, msg, host);
}

/// Without an address for one of the two texts the adapter is not set up.
pub proof fn no_set_up_without_addresses<E>(
    name: Seq<char>,
    version: Seq<char>,
    msg: InstantiateMsgView,
    host: InstantiateHost<E>,
)
    requires
        outcome(seq![], instantiate_step(name, version, msg), host).result is Ok,
    ensures
        (host.validate_address)(msg.entry_point_contract_address) is Ok,
        (host.validate_address)(msg.oraidex_router_contract_address) is Ok,
{
    setting_up_ends_as_told(name, version, msg, host);
}

/// The chain is asked to do what each step holds, and setting up goes on with
/// whether it did. What the chain stored is stored, and nothing else is.
pub proof fn what_the_chain_is_asked_to_do<E>(
    stored: Seq<Stored>,
    step: InstantiateStepView<E>,
    host: InstantiateHost<E>,
)
    ensures
        outcome(stored, step, host) == match step {
            InstantiateStepView::Done(result) => InstantiateEnd { stored, result },
            InstantiateStepView::SetContractVersion(naming) => {
                let answer = (host.set_contract_version)(naming.name, naming.version);
                outcome(
                    if answer is Ok {
                        stored.push(
                            Stored::Version { name: naming.name, version: naming.version },
                        )
                    } else {
                        stored
                    },
                    after_set_contract_version(naming, answer),
                    host,
                )
            },
            InstantiateStepView::ValidateEntryPoint(check) => outcome(
                stored,
                after_validate_entry_point(
                    check,
                    (host.validate_address)(check.msg.entry_point_contract_address),
                ),
                host,
            ),
            InstantiateStepView::ValidateRouter(check) => outcome(
                stored,
                after_validate_router(check, (host.validate_address)(check.input)),
                host,
            ),
            InstantiateStepView::SaveEntryPoint(save) => {
                let answer = (host.save_entry_point)(save.entry_point);
                outcome(
                    if answer is Ok {
                        stored.push(Stored::EntryPoint(save.entry_point))
                    } else {
                        stored
                    },
                    after_save_entry_point(save, answer),
                    host,
                )
            },
            InstantiateStepView::SaveRouter(save) => {
                let answer = (host.save_router)(save.router);
                outcome(
                    if answer is Ok {
                        stored.push(Stored::Router(save.router))
                    } else {
                        stored
                    },
                    after_save_router(save, answer),
                    host,
                )
            },
        },
{
    reveal_with_fuel(outcome, 2);
}

} // verus!
