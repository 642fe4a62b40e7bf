use oraidex_adapter::asset::Coin;
use oraidex_adapter::error::ContractError;
use oraidex_adapter::execute;
use oraidex_adapter::execute::state::ExecuteStep;
use oraidex_adapter::instantiate::step::{InstantiateMsg, InstantiateStep};
use oraidex_adapter::message::{Attribute, ExecuteMsg, Message, MessageInfo, Response};
use oraidex_adapter::operation::SwapOperation;
use oraidex_adapter::{instantiate, migrate};

/// Runs the steps on a chain that cannot do `failing`, and notes what is stored.
fn run(failing: &str) -> (Vec<String>, Result<Response, ContractError<String>>) {
    let answer = |what: &str| {
        if what == failing {
            Err(format!("no {}", what))
        } else {
            Ok(())
        }
    };
    let msg = InstantiateMsg {
        entry_point_contract_address: "ENTRY".to_string(),
        oraidex_router_contract_address: "ROUTER".to_string(),
    };
    let mut stored: Vec<String> = vec![];
    let mut step = instantiate("adapter".to_string(), "0.1.0".to_string(), msg);
    loop {
        step = match step {
            InstantiateStep::Done(result) => return (stored, result),
            InstantiateStep::SetContractVersion(state) => {
                let done = answer("version");
                if done.is_ok() {
                    stored.push(format!("{} {}", state.name, state.version));
                }
                state.resume(done)
            }
            InstantiateStep::ValidateEntryPoint(state) => {
                let address = state.msg.entry_point_contract_address.to_lowercase();
                state.resume(answer("entry").map(|_| address))
            }
            InstantiateStep::ValidateRouter(state) => {
                let address = state.input.to_lowercase();
                state.resume(answer("router").map(|_| address))
            }
            InstantiateStep::SaveEntryPoint(state) => {
                let done = answer("save entry");
                if done.is_ok() {
                    stored.push(format!("entry {}", state.entry_point));
                }
                state.resume(done)
            }
            InstantiateStep::SaveRouter(state) => {
                let done = answer("save router");
                if done.is_ok() {
                    stored.push(format!("router {}", state.router));
                }
                state.resume(done)
            }
        };
    }
}

fn attribute(key: &str, value: &str) -> Attribute {
    Attribute { key: key.to_string(), value: value.to_string() }
}

#[test]
fn setting_up_stores_the_valid_addresses() {
    let (stored, result) = run("");
    assert_eq!(stored, vec!["adapter 0.1.0", "entry entry", "router router"]);
    assert_eq!(
        result,
        Ok(Response {
            messages: vec![],
            attributes: vec![
                attribute("action", "instantiate"),
                attribute("entry_point_contract_address", "entry"),
            ],
        })
    );
}

#[test]
fn setting_up_ends_with_the_first_error() {
    for (failing, count) in
        [("version", 0), ("entry", 1), ("router", 1), ("save entry", 1), ("save router", 2)]
    {
        let (stored, result) = run(failing);
        assert_eq!(stored.len(), count);
        assert_eq!(result, Err(ContractError::Outside(format!("no {}", failing))));
    }
}

#[test]
fn migrating_does_nothing() {
    let result: Result<Response, ContractError<String>> = migrate();
    assert_eq!(result, Ok(Response { messages: vec![], attributes: vec![] }));
}

#[test]
fn whom_the_adapter_was_set_up_for_may_swap() {
    let (stored, _) = run("");
    let entry_point = stored[1].strip_prefix("entry ").unwrap().to_string();
    for sender in ["entry", "ENTRY", "router"] {
        match swap(sender, &entry_point) {
            Ok(response) => {
                assert_eq!(sender, "entry");
                assert_eq!(response.messages.len(), 2);
            }
            Err(error) => {
                assert_ne!(sender, "entry");
                assert_eq!(error, ContractError::Unauthorized);
            }
        }
    }
}

/// Sends a swap to an adapter whose stored entry point is given.
fn swap(sender: &str, entry_point: &str) -> Result<Response, ContractError<String>> {
    let info = MessageInfo {
        sender: sender.to_string(),
        funds: vec![Coin { denom: "usdt".to_string(), amount: 1 }],
    };
    let operations = vec![SwapOperation {
        pool: "p".to_string(),
        denom_in: "usdt".to_string(),
        denom_out: "orai".to_string(),
        rest: vec![],
    }];
    let step: ExecuteStep<String> =
        execute("adapter".to_string(), info, ExecuteMsg::Swap { operations });
    match step {
        ExecuteStep::LoadEntryPoint(request) => {
            match request.resume::<String>(Ok(entry_point.to_string())) {
                ExecuteStep::Done(result) => result,
                other => panic!("{:?}", other),
            }
        }
        other => panic!("{:?}", other),
    }
}

#[test]
fn calls_and_migrations_leave_the_entry_point() {
    let (stored, _) = run("");
    let entry_point = stored[1].strip_prefix("entry ").unwrap();
    let first = swap("entry", entry_point);
    for _ in 0..3 {
        assert_eq!(swap("someone", entry_point), Err(ContractError::Unauthorized));
        let migrated: Result<Response, ContractError<String>> = migrate();
        assert!(migrated.unwrap().messages.is_empty());
        assert_eq!(swap("entry", entry_point), first);
    }
    match first.unwrap().messages.pop() {
        Some(Message::Execute { msg, .. }) => assert_eq!(
            msg,
            ExecuteMsg::TransferFundsBack {
                swapper: "entry".to_string(),
                return_denom: "orai".to_string(),
            }
        ),
        other => panic!("{:?}", other),
    }
}
