use oraidex_adapter::asset::{Asset, Coin, Cw20Coin};
use oraidex_adapter::error::{ContractError, PaymentError};
use oraidex_adapter::execute::state::{ExecuteStep, SwapMsg};
use oraidex_adapter::message::{
    Attribute, Cw20HookMsg, Cw20ReceiveMsg, ExecuteMsg, Message, MessageInfo, Response, WasmMsg,
};
use oraidex_adapter::operation::SwapOperation;
use oraidex_adapter::{execute, receive_cw20};

fn coin(denom: &str, amount: u128) -> Coin {
    Coin { denom: denom.to_string(), amount }
}

fn operation(pool: &str, denom_in: &str, denom_out: &str) -> SwapOperation {
    SwapOperation {
        pool: pool.to_string(),
        denom_in: denom_in.to_string(),
        denom_out: denom_out.to_string(),
        rest: pool.as_bytes().to_vec(),
    }
}

fn operations() -> Vec<SwapOperation> {
    vec![operation("p", "usdt", "orai"), operation("q", "orai", "atom")]
}

fn info(sender: &str, funds: Vec<Coin>) -> MessageInfo {
    MessageInfo { sender: sender.to_string(), funds }
}

fn action(value: &str) -> Attribute {
    Attribute { key: "action".to_string(), value: value.to_string() }
}

/// What a chain answers where `entry` is the entry point and `held` is there.
struct Chain {
    entry_point: Result<String, String>,
    received: Result<(), String>,
    hook: Result<Vec<SwapOperation>, String>,
    held: Result<Asset, String>,
    swap_msg: Result<String, String>,
    handed_over: Result<(), String>,
}

fn chain() -> Chain {
    Chain {
        entry_point: Ok("entry".to_string()),
        received: Ok(()),
        hook: Ok(operations()),
        held: Ok(Asset::Native(coin("orai", 9))),
        swap_msg: Ok("router".to_string()),
        handed_over: Ok(()),
    }
}

#[derive(Debug, PartialEq)]
enum End {
    Responded(Result<Response, ContractError<String>>),
    TransferFundsBack(String, String),
}

fn run(step: ExecuteStep<String>, chain: Chain) -> End {
    let mut step = step;
    let mut chain = chain;
    loop {
        step = match step {
            ExecuteStep::Done(result) => return End::Responded(result),
            ExecuteStep::TransferFundsBack { swapper, return_denom } => {
                return End::TransferFundsBack(swapper, return_denom)
            }
            ExecuteStep::ValidateAsset(state) => {
                assert_eq!(
                    state.asset,
                    Asset::Cw20(Cw20Coin {
                        address: state.info.sender.clone(),
                        amount: state.cw20_msg.amount,
                    })
                );
                state.resume(chain.received.clone())
            }
            ExecuteStep::ValidateSender(state) => {
                let answer = if state.cw20_msg.sender.is_empty() {
                    Err("empty address".to_string())
                } else {
                    Ok(state.cw20_msg.sender.to_lowercase())
                };
                state.resume(answer)
            }
            ExecuteStep::ParseHook(state) => {
                assert_eq!(state.msg, vec![1, 2, 3]);
                let answer = match chain.hook {
                    Ok(ref mut operations) => {
                        Ok(Cw20HookMsg::Swap { operations: std::mem::take(operations) })
                    }
                    Err(ref error) => Err(error.clone()),
                };
                state.resume(answer)
            }
            ExecuteStep::LoadEntryPoint(state) => state.resume(chain.entry_point.clone()),
            ExecuteStep::CurrentAsset(state) => state.resume(chain.held.clone()),
            ExecuteStep::SwapMsg(state) => {
                let pool = state.operation.pool.clone();
                let answer = match chain.swap_msg {
                    Ok(ref contract_addr) => Ok(SwapMsg {
                        contract_addr: contract_addr.clone(),
                        msg: pool.into_bytes(),
                    }),
                    Err(ref error) => Err(error.clone()),
                };
                state.resume(answer)
            }
            ExecuteStep::IntoWasmMsg(state) => {
                let answer = match (&chain.handed_over, &state.offer_asset) {
                    (Err(error), _) => Err(error.clone()),
                    (Ok(()), Asset::Native(coin)) => Ok(WasmMsg {
                        contract_addr: state.swap_msg.contract_addr.clone(),
                        msg: state.swap_msg.msg.clone(),
                        funds: vec![coin.clone()],
                    }),
                    (Ok(()), Asset::Cw20(coin)) => Ok(WasmMsg {
                        contract_addr: coin.address.clone(),
                        msg: format!("send {}", coin.amount).into_bytes(),
                        funds: vec![],
                    }),
                };
                state.resume(answer)
            }
        };
    }
}

fn swap(info: MessageInfo, operations: Vec<SwapOperation>) -> ExecuteStep<String> {
    execute("adapter".to_string(), info, ExecuteMsg::Swap { operations })
}

fn pool_swap(sender: &str) -> ExecuteStep<String> {
    execute(
        "adapter".to_string(),
        info(sender, vec![]),
        ExecuteMsg::OraidexPoolSwap { operation: operation("q", "orai", "atom") },
    )
}

fn to_adapter(msg: ExecuteMsg) -> Message {
    Message::Execute { contract_addr: "adapter".to_string(), msg, funds: vec![] }
}

fn swap_response() -> Response {
    Response {
        messages: vec![
            to_adapter(ExecuteMsg::OraidexPoolSwap { operation: operation("p", "usdt", "orai") }),
            to_adapter(ExecuteMsg::OraidexPoolSwap { operation: operation("q", "orai", "atom") }),
            to_adapter(ExecuteMsg::TransferFundsBack {
                swapper: "entry".to_string(),
                return_denom: "atom".to_string(),
            }),
        ],
        attributes: vec![action("execute_swap"), action("dispatch_swaps_and_transfer_back")],
    }
}

#[test]
fn a_swap_of_the_entry_point_is_dispatched() {
    let step = swap(info("entry", vec![coin("usdt", 5)]), operations());
    assert_eq!(run(step, chain()), End::Responded(Ok(swap_response())));
}

#[test]
fn a_swap_of_anyone_else_is_refused() {
    let step = swap(info("someone", vec![coin("usdt", 5)]), operations());
    assert_eq!(run(step, chain()), End::Responded(Err(ContractError::Unauthorized)));
}

#[test]
fn a_swap_needs_one_coin() {
    let refused = |funds| run(swap(info("entry", funds), operations()), chain());
    assert_eq!(
        refused(vec![]),
        End::Responded(Err(ContractError::Payment(PaymentError::NoFunds)))
    );
    assert_eq!(
        refused(vec![coin("usdt", 0)]),
        End::Responded(Err(ContractError::Payment(PaymentError::NoFunds)))
    );
    assert_eq!(
        refused(vec![coin("usdt", 5), coin("orai", 5)]),
        End::Responded(Err(ContractError::Payment(PaymentError::MultipleDenoms)))
    );
}

#[test]
fn the_coin_is_looked_at_before_the_operations() {
    let step = swap(info("entry", vec![]), vec![]);
    assert_eq!(
        run(step, chain()),
        End::Responded(Err(ContractError::Payment(PaymentError::NoFunds)))
    );
}

#[test]
fn a_swap_needs_operations() {
    let step = swap(info("entry", vec![coin("usdt", 5)]), vec![]);
    assert_eq!(run(step, chain()), End::Responded(Err(ContractError::SwapOperationsEmpty)));
}

#[test]
fn a_swap_needs_the_coin_of_the_first_operation() {
    let step = swap(info("entry", vec![coin("orai", 5)]), operations());
    assert_eq!(run(step, chain()), End::Responded(Err(ContractError::CoinInDenomMismatch)));
}

#[test]
fn a_swap_without_an_entry_point() {
    let chain = Chain { entry_point: Err("not found".to_string()), ..chain() };
    let step = swap(info("entry", vec![coin("usdt", 5)]), operations());
    assert_eq!(
        run(step, chain),
        End::Responded(Err(ContractError::Outside("not found".to_string())))
    );
}

fn receive(sender: &str) -> ExecuteStep<String> {
    let cw20_msg =
        Cw20ReceiveMsg { sender: sender.to_string(), amount: 5, msg: vec![1, 2, 3] };
    execute("adapter".to_string(), info("ledger", vec![]), ExecuteMsg::Receive(cw20_msg))
}

#[test]
fn tokens_are_swapped_as_coins() {
    assert_eq!(run(receive("ENTRY"), chain()), End::Responded(Ok(swap_response())));
}

#[test]
fn tokens_of_anyone_else_are_refused() {
    assert_eq!(
        run(receive("someone"), chain()),
        End::Responded(Err(ContractError::Unauthorized))
    );
}

#[test]
fn tokens_without_operations() {
    let chain = Chain { hook: Ok(vec![]), ..chain() };
    assert_eq!(
        run(receive("entry"), chain),
        End::Responded(Err(ContractError::SwapOperationsEmpty))
    );
}

#[test]
fn tokens_that_did_not_arrive() {
    let outside = |error: &str| {
        End::Responded(Err(ContractError::Outside(error.to_string())))
    };
    let missing = Chain { received: Err("missing".to_string()), ..chain() };
    assert_eq!(run(receive(""), missing), outside("missing"));
    assert_eq!(run(receive(""), chain()), outside("empty address"));
    let unread = Chain { hook: Err("unread".to_string()), ..chain() };
    assert_eq!(run(receive("entry"), unread), outside("unread"));
}

#[test]
fn notice_of_tokens_first_asks_for_them() {
    let cw20_msg = Cw20ReceiveMsg { sender: "entry".to_string(), amount: 5, msg: vec![] };
    let step: ExecuteStep<String> =
        receive_cw20("adapter".to_string(), info("ledger", vec![coin("orai", 1)]), cw20_msg);
    match step {
        ExecuteStep::ValidateAsset(receipt) => {
            assert_eq!(receipt.contract, "adapter");
            assert_eq!(receipt.info, info("ledger", vec![coin("orai", 1)]));
            assert_eq!(
                receipt.asset,
                Asset::Cw20(Cw20Coin { address: "ledger".to_string(), amount: 5 })
            );
        }
        other => panic!("{:?}", other),
    }
}

#[test]
fn a_pool_swap_offers_what_is_held() {
    assert_eq!(
        run(pool_swap("adapter"), chain()),
        End::Responded(Ok(Response {
            messages: vec![Message::Wasm(WasmMsg {
                contract_addr: "router".to_string(),
                msg: b"q".to_vec(),
                funds: vec![coin("orai", 9)],
            })],
            attributes: vec![action("dispatch_oraidex_pool_swap")],
        }))
    );
    let held = Asset::Cw20(Cw20Coin { address: "ledger".to_string(), amount: 7 });
    assert_eq!(
        run(pool_swap("adapter"), Chain { held: Ok(held), ..chain() }),
        End::Responded(Ok(Response {
            messages: vec![Message::Wasm(WasmMsg {
                contract_addr: "ledger".to_string(),
                msg: b"send 7".to_vec(),
                funds: vec![],
            })],
            attributes: vec![action("dispatch_oraidex_pool_swap")],
        }))
    );
}

#[test]
fn a_pool_swap_of_anyone_else_is_refused() {
    assert_eq!(
        run(pool_swap("entry"), chain()),
        End::Responded(Err(ContractError::Unauthorized))
    );
}

#[test]
fn a_pool_swap_of_nothing_is_refused() {
    let chain = Chain { held: Ok(Asset::Native(coin("orai", 0))), ..chain() };
    assert_eq!(
        run(pool_swap("adapter"), chain),
        End::Responded(Err(ContractError::NoOfferAssetAmount))
    );
}

#[test]
fn a_pool_swap_that_cannot_be_made() {
    let unknown = Chain { held: Err("unknown".to_string()), ..chain() };
    assert_eq!(
        run(pool_swap("adapter"), unknown),
        End::Responded(Err(ContractError::Outside("unknown".to_string())))
    );
    let no_msg = Chain { swap_msg: Err("no pool".to_string()), ..chain() };
    assert_eq!(
        run(pool_swap("adapter"), no_msg),
        End::Responded(Err(ContractError::Outside("no pool".to_string())))
    );
    let kept = Chain { handed_over: Err("kept".to_string()), ..chain() };
    assert_eq!(
        run(pool_swap("adapter"), kept),
        End::Responded(Err(ContractError::Outside("kept".to_string())))
    );
}

#[test]
fn the_adapter_lets_its_own_messages_in() {
    let step = swap(info("entry", vec![coin("usdt", 5)]), operations());
    let messages = match run(step, chain()) {
        End::Responded(Ok(response)) => response.messages,
        other => panic!("{:?}", other),
    };
    let mut ends = vec![];
    for message in messages {
        match message {
            Message::Execute { contract_addr, msg, funds } => {
                assert_eq!(contract_addr, "adapter");
                let step = execute(contract_addr, info("adapter", funds), msg);
                ends.push(run(step, chain()));
            }
            other => panic!("{:?}", other),
        }
    }
    assert_eq!(ends.len(), 3);
    assert!(matches!(ends[0], End::Responded(Ok(_))));
    assert!(matches!(ends[1], End::Responded(Ok(_))));
    assert_eq!(ends[2], End::TransferFundsBack("entry".to_string(), "atom".to_string()));
}

fn messages(operations: Vec<SwapOperation>) -> Vec<Message> {
    let funds = vec![coin(&operations[0].denom_in, 5)];
    match run(swap(info("entry", funds), operations), chain()) {
        End::Responded(Ok(response)) => response.messages,
        other => panic!("{:?}", other),
    }
}

#[test]
fn joined_operations_send_joined_messages() {
    let first = || vec![operation("p", "usdt", "orai"), operation("q", "orai", "atom")];
    let second = || vec![operation("r", "atom", "osmo")];
    let mut joined_operations = first();
    joined_operations.extend(second());
    let mut expected = messages(first());
    expected.pop();
    expected.extend(messages(second()));
    assert_eq!(expected.len(), 4);
    assert_eq!(messages(joined_operations), expected);
}

#[test]
fn a_swap_does_not_depend_on_how_much_comes_in() {
    let with = |amount| {
        let held = Ok(Asset::Native(coin("usdt", amount)));
        let step = swap(info("entry", vec![coin("usdt", amount)]), operations());
        run(step, Chain { held, ..chain() })
    };
    assert_eq!(with(1), End::Responded(Ok(swap_response())));
    assert_eq!(with(1), with(u128::MAX));
}

#[test]
fn what_comes_with_an_operation_is_passed_on() {
    let mut with_rest = operation("p", "usdt", "orai");
    with_rest.rest = vec![9, 8, 7];
    match &messages(vec![with_rest])[0] {
        Message::Execute { msg: ExecuteMsg::OraidexPoolSwap { operation }, .. } => {
            assert_eq!(operation.pool, "p");
            assert_eq!(operation.rest, vec![9, 8, 7]);
        }
        other => panic!("{:?}", other),
    }
}
