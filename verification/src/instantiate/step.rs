//! The steps of setting the adapter up.
use vstd::prelude::*;

use crate::error::{seen, ContractError};
use crate::message::{AttributeView, Response, ResponseView};

verus! {

/// Which contracts the adapter stands between.
#[derive(Debug, PartialEq, Eq)]
pub struct InstantiateMsg {
    pub entry_point_contract_address: String,
    pub oraidex_router_contract_address: String,
}

#[verifier::ext_equal]
pub struct InstantiateMsgView {
    pub entry_point_contract_address: Seq<char>,
    pub oraidex_router_contract_address: Seq<char>,
}

impl View for InstantiateMsg {
    type V = InstantiateMsgView;

    open spec fn view(&self) -> InstantiateMsgView {
        InstantiateMsgView {
            entry_point_contract_address: self.entry_point_contract_address@,
            oraidex_router_contract_address: self.oraidex_router_contract_address@,
        }
    }
}

/// The name and the version of the adapter have to be stored.
#[derive(Debug, PartialEq, Eq)]
pub struct Naming {
    pub name: String,
    pub version: String,
    pub msg: InstantiateMsg,
}

#[verifier::ext_equal]
pub struct NamingView {
    pub name: Seq<char>,
    pub version: Seq<char>,
    pub msg: InstantiateMsgView,
}

impl View for Naming {
    type V = NamingView;

    open spec fn view(&self) -> NamingView {
        NamingView { name: self.name@, version: self.version@, msg: self.msg@ }
    }
}

/// The address of the entry point has to be valid.
#[derive(Debug, PartialEq, Eq)]
pub struct EntryPointCheck {
    pub msg: InstantiateMsg,
}

#[verifier::ext_equal]
pub struct EntryPointCheckView {
    pub msg: InstantiateMsgView,
}

impl View for EntryPointCheck {
    type V = EntryPointCheckView;

    open spec fn view(&self) -> EntryPointCheckView {
        EntryPointCheckView { msg: self.msg@ }
    }
}

/// The address of the router, `input`, has to be valid.
#[derive(Debug, PartialEq, Eq)]
pub struct RouterCheck {
    pub entry_point: String,
    pub input: String,
}

#[verifier::ext_equal]
pub struct RouterCheckView {
    pub entry_point: Seq<char>,
    pub input: Seq<char>,
}

impl View for RouterCheck {
    type V = RouterCheckView;

    open spec fn view(&self) -> RouterCheckView {
        RouterCheckView { entry_point: self.entry_point@, input: self.input@ }
    }
}

/// The address of the entry point has to be stored.
#[derive(Debug, PartialEq, Eq)]
pub struct EntryPointSave {
    pub entry_point: String,
    pub router: String,
}

#[verifier::ext_equal]
pub struct EntryPointSaveView {
    pub entry_point: Seq<char>,
    pub router: Seq<char>,
}

impl View for EntryPointSave {
    type V = EntryPointSaveView;

    open spec fn view(&self) -> EntryPointSaveView {
        EntryPointSaveView { entry_point: self.entry_point@, router: self.router@ }
    }
}

/// The address of the router has to be stored.
#[derive(Debug, PartialEq, Eq)]
pub struct RouterSave {
    pub entry_point: String,
    pub router: String,
}

#[verifier::ext_equal]
pub struct RouterSaveView {
    pub entry_point: Seq<char>,
    pub router: Seq<char>,
}

impl View for RouterSave {
    type V = RouterSaveView;

    open spec fn view(&self) -> RouterSaveView {
        RouterSaveView { entry_point: self.entry_point@, router: self.router@ }
    }
}

/// A step of setting the adapter up.
#[derive(Debug, PartialEq, Eq)]
pub enum InstantiateStep<E> {
    /// The end.
    Done(Result<Response, ContractError<E>>),
    /// Store `name` and `version`.
    SetContractVersion(Naming),
    /// Which address is the entry point of the message?
    ValidateEntryPoint(EntryPointCheck),
    /// Which address is `input`?
    ValidateRouter(RouterCheck),
    /// Store `entry_point`.
    SaveEntryPoint(EntryPointSave),
    /// Store `router`.
    SaveRouter(RouterSave),
}

#[verifier::ext_equal]
pub enum InstantiateStepView<E> {
    Done(Result<ResponseView, ContractError<E>>),
    SetContractVersion(NamingView),
    ValidateEntryPoint(EntryPointCheckView),
    ValidateRouter(RouterCheckView),
    SaveEntryPoint(EntryPointSaveView),
    SaveRouter(RouterSaveView),
}

impl<E> View for InstantiateStep<E> {
    type V = InstantiateStepView<E>;

    open spec fn view(&self) -> InstantiateStepView<E> {
        match self {
            InstantiateStep::Done(result) => InstantiateStepView::Done(seen(*result)),
            InstantiateStep::SetContractVersion(state) => InstantiateStepView::SetContractVersion(
                state@,
            ),
            InstantiateStep::ValidateEntryPoint(state) => InstantiateStepView::ValidateEntryPoint(
                state@,
            ),
            InstantiateStep::ValidateRouter(state) => InstantiateStepView::ValidateRouter(state@),
            InstantiateStep::SaveEntryPoint(state) => InstantiateStepView::SaveEntryPoint(state@),
            InstantiateStep::SaveRouter(state) => InstantiateStepView::SaveRouter(state@),
        }
    }
}

/// Moves the adapter to a later version: there is nothing to do.
pub fn migrate<E>() -> (result: Result<Response, ContractError<E>>)
    ensures
        seen(result) == Ok::<_, ContractError<E>>(ResponseView::empty()),
        result matches Ok(response) && response.messages@.len() == 0 && response.attributes@.len()
            == 0,
{
    Ok(Response::new())
}

/// The first step of setting the adapter up.
pub open spec fn instantiate_step<E>(
    name: Seq<char>,
    version: Seq<char>,
    msg: InstantiateMsgView,
) -> InstantiateStepView<E> {
    InstantiateStepView::SetContractVersion(NamingView { name, version, msg })
}

/// Sets the adapter up, under a name and a version.
pub fn instantiate<E>(name: String, version: String, msg: InstantiateMsg) -> (step: InstantiateStep<
    E,
>)
    ensures
        step@ == instantiate_step::<E>(name@, version@, msg@),
{
    InstantiateStep::SetContractVersion(Naming { name, version, msg })
}

/// Setting up ends with an error that came from outside.
pub open spec fn not_set_up<E>(error: E) -> InstantiateStepView<E> {
    InstantiateStepView::Done(Err(ContractError::Outside(error)))
}

/// The step after the name and the version were to be stored.
pub open spec fn after_set_contract_version<E>(
    naming: NamingView,
    answer: Result<(), E>,
) -> InstantiateStepView<E> {
    match answer {
        Ok(_) => InstantiateStepView::ValidateEntryPoint(EntryPointCheckView { msg: naming.msg }),
        Err(error) => not_set_up(error),
    }
}

impl Naming {
    /// Takes whether the name and the version were stored.
    pub fn resume<E>(self, answer: Result<(), E>) -> (step: InstantiateStep<E>)
        ensures
            step@ == after_set_contract_version(self@, answer),
    {
        match answer {
            Ok(_) => InstantiateStep::ValidateEntryPoint(EntryPointCheck { msg: self.msg }),
            Err(error) => InstantiateStep::Done(Err(ContractError::Outside(error))),
        }
    }
}

/// The step after the address of the entry point was checked.
pub open spec fn after_validate_entry_point<E>(
    check: EntryPointCheckView,
    answer: Result<Seq<char>, E>,
) -> InstantiateStepView<E> {
    match answer {
        Ok(entry_point) => InstantiateStepView::ValidateRouter(
            RouterCheckView { entry_point, input: check.msg.oraidex_router_contract_address },
        ),
        Err(error) => not_set_up(error),
    }
}

impl EntryPointCheck {
    /// Takes the address of the entry point.
    pub fn resume<E>(self, answer: Result<String, E>) -> (step: InstantiateStep<E>)
        ensures
            step@ == after_validate_entry_point(self@, seen(answer)),
    {
        match answer {
            Ok(entry_point) => InstantiateStep::ValidateRouter(
                RouterCheck { entry_point, input: self.msg.oraidex_router_contract_address },
            ),
            Err(error) => InstantiateStep::Done(Err(ContractError::Outside(error))),
        }
    }
}

/// The step after the address of the router was checked.
pub open spec fn after_validate_router<E>(
    check: RouterCheckView,
    answer: Result<Seq<char>, E>,
) -> InstantiateStepView<E> {
    match answer {
        Ok(router) => InstantiateStepView::SaveEntryPoint(
            EntryPointSaveView { entry_point: check.entry_point, router },
        ),
        Err(error) => not_set_up(error),
    }
}

impl RouterCheck {
    /// Takes the address of the router.
    pub fn resume<E>(self, answer: Result<String, E>) -> (step: InstantiateStep<E>)
        ensures
            step@ == after_validate_router(self@, seen(answer)),
    {
        match answer {
            Ok(router) => InstantiateStep::SaveEntryPoint(
                EntryPointSave { entry_point: self.entry_point, router },
            ),
            Err(error) => InstantiateStep::Done(Err(ContractError::Outside(error))),
        }
    }
}

/// The step after the address of the entry point was to be stored.
pub open spec fn after_save_entry_point<E>(
    save: EntryPointSaveView,
    answer: Result<(), E>,
) -> InstantiateStepView<E> {
    match answer {
        Ok(_) => InstantiateStepView::SaveRouter(
            RouterSaveView { entry_point: save.entry_point, router: save.router },
        ),
        Err(error) => not_set_up(error),
    }
}

impl EntryPointSave {
    /// Takes whether the address of the entry point was stored.
    pub fn resume<E>(self, answer: Result<(), E>) -> (step: InstantiateStep<E>)
        ensures
            step@ == after_save_entry_point(self@, answer),
    {
        match answer {
            Ok(_) => InstantiateStep::SaveRouter(
                RouterSave { entry_point: self.entry_point, router: self.router },
            ),
            Err(error) => InstantiateStep::Done(Err(ContractError::Outside(error))),
        }
    }
}

/// The response to setting the adapter up.
pub open spec fn instantiate_response(entry_point: Seq<char>) -> ResponseView {
    ResponseView {
        messages: seq![],
        attributes: seq![
            AttributeView { key: "action"@, value: "instantiate"@ },
            AttributeView { key: "entry_point_contract_address"@, value: entry_point },
        ],
    }
}

/// The step after the address of the router was to be stored.
pub open spec fn after_save_router<E>(
    save: RouterSaveView,
    answer: Result<(), E>,
) -> InstantiateStepView<E> {
    match answer {
        Ok(_) => InstantiateStepView::Done(Ok(instantiate_response(save.entry_point))),
        Err(error) => not_set_up(error),
    }
}

impl RouterSave {
    /// Takes whether the address of the router was stored.
    pub fn resume<E>(self, answer: Result<(), E>) -> (step: InstantiateStep<E>)
        ensures
            step@ == after_save_router(self@, answer),
    {
        match answer {
            Ok(_) => {
                let response = Response::new().add_attribute(
                    "action",
                    "instantiate",
                ).add_attribute("entry_point_contract_address", self.entry_point.as_str());
                assert(response@ == instantiate_response(self@.entry_point));
                InstantiateStep::Done(Ok(response))
            },
            Err(error) => InstantiateStep::Done(Err(ContractError::Outside(error))),
        }
    }
}

} // verus!
