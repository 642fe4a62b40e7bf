use oraidex_adapter::asset::{Asset, Coin, Cw20Coin};
use oraidex_adapter::decimal::Decimal;
use oraidex_adapter::error::ContractError;
use oraidex_adapter::hop::{AssetInfo, OraidexSwapOperation, PoolKey};
use oraidex_adapter::operation::{Route, SwapOperation};
use oraidex_adapter::query;
use oraidex_adapter::query::answer::contribute;
use oraidex_adapter::query::msg::{QueryMsg, QueryReply};
use oraidex_adapter::query::state::{QueryStep, WeightedPrice};

const ONE: u128 = 1_000_000_000_000_000_000;

fn native(denom: &str, amount: u128) -> Asset {
    Asset::Native(Coin { denom: denom.to_string(), amount })
}

fn token(address: &str, amount: u128) -> Asset {
    Asset::Cw20(Cw20Coin { address: address.to_string(), amount })
}

fn operation(pool: &str, denom_in: &str, denom_out: &str) -> SwapOperation {
    SwapOperation {
        pool: pool.to_string(),
        denom_in: denom_in.to_string(),
        denom_out: denom_out.to_string(),
        rest: vec![],
    }
}

fn route(offer_asset: Asset, operations: Vec<SwapOperation>) -> Route {
    Route { offer_asset, operations }
}

fn price(units: u128) -> Decimal {
    Decimal { atomics: units * ONE }
}

type Step = QueryStep<String, u16>;
type Reply = Result<QueryReply, ContractError<String>>;

/// A chain that answers: denoms that start with `orai1` are tokens, a pool id is
/// `x-fee`, and the router gives `rate` for each unit and hop.
struct Chain {
    router: Result<String, String>,
    rate: u128,
    prices: Vec<Result<Decimal, String>>,
    asked: Vec<String>,
    simulated: Vec<(String, u128, Vec<OraidexSwapOperation<u16>>)>,
}

fn chain(rate: u128) -> Chain {
    Chain {
        router: Ok("router".to_string()),
        rate,
        prices: vec![],
        asked: vec![],
        simulated: vec![],
    }
}

fn asset(denom: &str, amount: u128) -> Asset {
    if denom.starts_with("orai1") {
        token(denom, amount)
    } else {
        native(denom, amount)
    }
}

fn asset_info(denom: &str) -> AssetInfo {
    if denom.starts_with("orai1") {
        AssetInfo::Token { contract_addr: denom.to_string() }
    } else {
        AssetInfo::NativeToken { denom: denom.to_string() }
    }
}

fn pool_key(pool: &str) -> Result<PoolKey<u16>, String> {
    let parts: Vec<&str> = pool.split('-').collect();
    match parts[1].parse::<u16>() {
        Ok(rest) => Ok(PoolKey { token_x: parts[0].to_string(), rest }),
        Err(_) => Err(format!("bad pool {}", pool)),
    }
}

fn run(msg: QueryMsg, chain: &mut Chain) -> Reply {
    let mut step: Step = query(msg);
    loop {
        step = match step {
            QueryStep::Done(reply) => return reply,
            QueryStep::AskDenom(state) => {
                chain.asked.push("ask_denom".to_string());
                let answer = match state.routes.last() {
                    Some(route) => Ok(route.operations.last().unwrap().denom_out.clone()),
                    None => Err("no routes".to_string()),
                };
                state.resume(answer)
            }
            QueryStep::EmptyAsset(state) => {
                chain.asked.push("empty_asset".to_string());
                let answer = asset(&state.ask_denom, 0);
                state.resume(answer)
            }
            QueryStep::LoadRouter(state) => {
                chain.asked.push("router".to_string());
                state.resume(chain.router.clone())
            }
            QueryStep::PoolKey(state) => {
                chain.asked.push("pool_key".to_string());
                let answer = pool_key(&state.operations[state.hops.len()].pool);
                state.resume_pool_key(answer)
            }
            QueryStep::AssetInfos(state) => {
                chain.asked.push("asset_infos".to_string());
                let offer = asset_info(&state.operations[state.hops.len()].denom_in);
                let ask = asset_info(&state.operations[state.hops.len()].denom_out);
                state.resume_asset_infos(offer, ask)
            }
            QueryStep::Simulate(state) => {
                chain.asked.push("simulate".to_string());
                let amount = state.offer_amount * chain.rate;
                if state.operations.is_empty() {
                    state.resume_simulate(Err("no operations".to_string()))
                } else {
                    let router = state.router.clone();
                    let mut hops = vec![];
                    for hop in &state.hops {
                        hops.push(copy(hop));
                    }
                    chain.simulated.push((router, state.offer_amount, hops));
                    state.resume_simulate(Ok(amount))
                }
            }
            QueryStep::NewAsset(state) => {
                chain.asked.push("new_asset".to_string());
                let answer = asset(state.denom(), state.amount);
                state.resume(answer)
            }
            QueryStep::ExactOut(state) => {
                chain.asked.push("exact_out".to_string());
                let answer = asset(
                    &state.operations[0].denom_in,
                    state.asset_out.amount() / chain.rate,
                );
                state.resume(Ok(answer))
            }
            QueryStep::SpotPrice(state) => {
                chain.asked.push("spot_price".to_string());
                let answer = chain.prices.remove(0);
                state.resume(answer)
            }
            QueryStep::RouteSpotPrice(state) => {
                chain.asked.push("route_spot_price".to_string());
                let answer = chain.prices.remove(0);
                assert!(state.accepts(&answer));
                state.resume(answer)
            }
        };
    }
}

fn copy(hop: &OraidexSwapOperation<u16>) -> OraidexSwapOperation<u16> {
    match hop {
        OraidexSwapOperation::SwapV3 { pool_key, x_to_y } => OraidexSwapOperation::SwapV3 {
            pool_key: PoolKey { token_x: pool_key.token_x.clone(), rest: pool_key.rest },
            x_to_y: *x_to_y,
        },
        OraidexSwapOperation::OraiSwap { offer_asset_info, ask_asset_info } => {
            OraidexSwapOperation::OraiSwap {
                offer_asset_info: copy_info(offer_asset_info),
                ask_asset_info: copy_info(ask_asset_info),
            }
        }
    }
}

fn copy_info(info: &AssetInfo) -> AssetInfo {
    match info {
        AssetInfo::Token { contract_addr } => {
            AssetInfo::Token { contract_addr: contract_addr.clone() }
        }
        AssetInfo::NativeToken { denom } => AssetInfo::NativeToken { denom: denom.clone() },
    }
}

fn two_hops() -> Vec<SwapOperation> {
    vec![operation("orai1x-30", "usdt", "orai1x"), operation("pair", "orai1x", "atom")]
}

#[test]
fn exact_in_asks_the_router_for_each_hop() {
    let mut chain = chain(3);
    let reply = run(
        QueryMsg::SimulateSwapExactAssetIn {
            asset_in: native("usdt", 7),
            swap_operations: two_hops(),
        },
        &mut chain,
    );
    assert_eq!(reply, Ok(QueryReply::Asset(native("atom", 21))));
    assert_eq!(
        chain.asked,
        vec!["router", "pool_key", "asset_infos", "simulate", "new_asset"]
    );
    assert_eq!(
        chain.simulated,
        vec![(
            "router".to_string(),
            7,
            vec![
                OraidexSwapOperation::SwapV3 {
                    pool_key: PoolKey { token_x: "orai1x".to_string(), rest: 30 },
                    x_to_y: false,
                },
                OraidexSwapOperation::OraiSwap {
                    offer_asset_info: AssetInfo::Token { contract_addr: "orai1x".to_string() },
                    ask_asset_info: AssetInfo::NativeToken { denom: "atom".to_string() },
                },
            ]
        )]
    );
}

#[test]
fn a_hop_from_token_x_is_x_to_y() {
    let mut chain = chain(1);
    let reply = run(
        QueryMsg::SimulateSwapExactAssetIn {
            asset_in: token("orai1x", 5),
            swap_operations: vec![operation("orai1x-5", "orai1x", "orai1y")],
        },
        &mut chain,
    );
    assert_eq!(reply, Ok(QueryReply::Asset(token("orai1y", 5))));
    assert_eq!(
        chain.simulated[0].2,
        vec![OraidexSwapOperation::SwapV3 {
            pool_key: PoolKey { token_x: "orai1x".to_string(), rest: 5 },
            x_to_y: true,
        }]
    );
}

#[test]
fn hyphen_marks_a_v3_pool() {
    assert!(operation("a-b", "", "").is_v3());
    assert!(operation("-", "", "").is_v3());
    assert!(operation("é-", "", "").is_v3());
    assert!(!operation("", "", "").is_v3());
    assert!(!operation("a_b", "", "").is_v3());
    assert!(!operation("a–b", "", "").is_v3());
}

#[test]
fn exact_in_without_operations() {
    let mut chain = chain(1);
    let msg = QueryMsg::SimulateSwapExactAssetIn {
        asset_in: native("usdt", 7),
        swap_operations: vec![],
    };
    assert_eq!(run(msg, &mut chain), Err(ContractError::SwapOperationsEmpty));
    let msg = QueryMsg::SimulateSwapExactAssetInWithMetadata {
        asset_in: native("usdt", 7),
        swap_operations: vec![],
        include_spot_price: true,
    };
    assert_eq!(run(msg, &mut chain), Err(ContractError::SwapOperationsEmpty));
    assert!(chain.asked.is_empty());
}

#[test]
fn exact_in_of_another_denom() {
    let mut chain = chain(1);
    let msg = QueryMsg::SimulateSwapExactAssetIn {
        asset_in: native("atom", 7),
        swap_operations: two_hops(),
    };
    assert_eq!(run(msg, &mut chain), Err(ContractError::CoinInDenomMismatch));
    let msg = QueryMsg::SimulateSwapExactAssetInWithMetadata {
        asset_in: native("atom", 7),
        swap_operations: two_hops(),
        include_spot_price: false,
    };
    assert_eq!(run(msg, &mut chain), Err(ContractError::CoinInDenomMismatch));
    assert!(chain.asked.is_empty());
}

#[test]
fn the_first_outside_error_is_the_reply() {
    let mut chain = chain(1);
    let msg = QueryMsg::SimulateSwapExactAssetIn {
        asset_in: native("usdt", 7),
        swap_operations: vec![
            operation("pair", "usdt", "atom"),
            operation("a-b", "atom", "orai"),
            operation("c-d", "orai", "usdc"),
        ],
    };
    let reply = run(msg, &mut chain);
    assert_eq!(reply, Err(ContractError::Outside("bad pool a-b".to_string())));
    assert_eq!(chain.asked, vec!["router", "asset_infos", "pool_key"]);

    chain.router = Err("not found".to_string());
    let msg = QueryMsg::SimulateSwapExactAssetIn {
        asset_in: native("usdt", 7),
        swap_operations: vec![operation("a-b", "usdt", "orai")],
    };
    assert_eq!(run(msg, &mut chain), Err(ContractError::Outside("not found".to_string())));
}

#[test]
fn metadata_keeps_the_asset_and_adds_the_price() {
    for include_spot_price in [false, true] {
        let mut chain = chain(3);
        chain.prices = vec![Ok(price(2))];
        let reply = run(
            QueryMsg::SimulateSwapExactAssetInWithMetadata {
                asset_in: native("usdt", 7),
                swap_operations: two_hops(),
                include_spot_price,
            },
            &mut chain,
        );
        let spot_price = if include_spot_price { Some(price(2)) } else { None };
        assert_eq!(
            reply,
            Ok(QueryReply::ExactAssetIn { asset_out: native("atom", 21), spot_price })
        );
        assert_eq!(chain.asked.contains(&"spot_price".to_string()), include_spot_price);
    }
}

#[test]
fn exact_out_is_passed_on() {
    let mut chain = chain(2);
    let reply = run(
        QueryMsg::SimulateSwapExactAssetOut {
            asset_out: native("atom", 10),
            swap_operations: two_hops(),
        },
        &mut chain,
    );
    assert_eq!(reply, Ok(QueryReply::Asset(native("usdt", 5))));
    chain.prices = vec![Ok(price(4))];
    let reply = run(
        QueryMsg::SimulateSwapExactAssetOutWithMetadata {
            asset_out: native("atom", 10),
            swap_operations: two_hops(),
            include_spot_price: true,
        },
        &mut chain,
    );
    assert_eq!(
        reply,
        Ok(QueryReply::ExactAssetOut {
            asset_in: native("usdt", 5),
            spot_price: Some(price(4)),
        })
    );
    let reply = run(
        QueryMsg::SimulateSwapExactAssetOutWithMetadata {
            asset_out: native("atom", 10),
            swap_operations: two_hops(),
            include_spot_price: false,
        },
        &mut chain,
    );
    assert_eq!(
        reply,
        Ok(QueryReply::ExactAssetOut { asset_in: native("usdt", 5), spot_price: None })
    );
}

#[test]
fn exact_out_is_refused() {
    let mut chain = chain(2);
    let msg = QueryMsg::SimulateSwapExactAssetOut {
        asset_out: native("usdt", 10),
        swap_operations: two_hops(),
    };
    assert_eq!(run(msg, &mut chain), Err(ContractError::CoinOutDenomMismatch));
    let msg = QueryMsg::SimulateSwapExactAssetOutWithMetadata {
        asset_out: native("usdt", 10),
        swap_operations: vec![],
        include_spot_price: true,
    };
    assert_eq!(run(msg, &mut chain), Err(ContractError::SwapOperationsEmpty));
    assert!(chain.asked.is_empty());
}

fn three_routes() -> Vec<Route> {
    vec![
        route(native("usdt", 10), vec![operation("p", "usdt", "atom")]),
        route(native("usdt", 20), two_hops()),
        route(native("usdt", 10), vec![operation("q", "usdt", "atom")]),
    ]
}

#[test]
fn a_split_swap_sums_its_routes() {
    let mut chain = chain(3);
    let msg = QueryMsg::SimulateSmartSwapExactAssetIn { routes: three_routes() };
    assert_eq!(run(msg, &mut chain), Ok(QueryReply::Asset(native("atom", 120))));
    assert_eq!(chain.simulated.len(), 3);
    assert_eq!(chain.simulated[1].1, 20);
}

#[test]
fn a_split_swap_without_routes() {
    let mut chain = chain(3);
    let msg = QueryMsg::SimulateSmartSwapExactAssetIn { routes: vec![] };
    assert_eq!(run(msg, &mut chain), Err(ContractError::Outside("no routes".to_string())));
}

#[test]
fn one_route_gives_what_it_gives_unsplit() {
    let mut chain = chain(3);
    let split = run(
        QueryMsg::SimulateSmartSwapExactAssetIn {
            routes: vec![route(native("usdt", 7), two_hops())],
        },
        &mut chain,
    );
    let unsplit = run(
        QueryMsg::SimulateSwapExactAssetIn {
            asset_in: native("usdt", 7),
            swap_operations: two_hops(),
        },
        &mut chain,
    );
    assert_eq!(split, unsplit);
}

#[test]
fn a_sum_beyond_128_bits_is_an_error() {
    let routes = vec![
        route(native("usdt", u128::MAX), vec![operation("p", "usdt", "atom")]),
        route(native("usdt", 1), vec![operation("p", "usdt", "atom")]),
    ];
    let mut chain = chain(1);
    let msg = QueryMsg::SimulateSmartSwapExactAssetIn { routes };
    assert_eq!(run(msg, &mut chain), Err(ContractError::Overflow));
}

#[test]
fn a_route_without_operations_goes_to_the_router() {
    let routes = vec![
        route(native("usdt", 1), vec![]),
        route(native("usdt", 1), vec![operation("p", "usdt", "atom")]),
    ];
    let mut chain = chain(1);
    let msg = QueryMsg::SimulateSmartSwapExactAssetIn { routes };
    let reply = run(msg, &mut chain);
    assert_eq!(reply, Err(ContractError::Outside("no operations".to_string())));
}

#[test]
fn a_split_swap_weights_the_prices() {
    let mut chain = chain(3);
    chain.prices = vec![Ok(price(4)), Ok(price(6)), Ok(price(8))];
    let msg = QueryMsg::SimulateSmartSwapExactAssetInWithMetadata {
        routes: three_routes(),
        asset_in: native("usdt", 40),
        include_spot_price: true,
    };
    assert_eq!(
        run(msg, &mut chain),
        Ok(QueryReply::SmartExactAssetIn {
            asset_out: native("atom", 120),
            spot_price: Some(price(6)),
        })
    );
}

#[test]
fn a_split_swap_without_the_price() {
    let mut chain = chain(3);
    let msg = QueryMsg::SimulateSmartSwapExactAssetInWithMetadata {
        routes: three_routes(),
        asset_in: native("usdt", 40),
        include_spot_price: false,
    };
    assert_eq!(
        run(msg, &mut chain),
        Ok(QueryReply::SmartExactAssetIn { asset_out: native("atom", 120), spot_price: None })
    );
}

#[test]
fn a_missing_route_price_is_the_reply() {
    let mut chain = chain(3);
    chain.prices = vec![Ok(price(4)), Err("no price".to_string())];
    let msg = QueryMsg::SimulateSmartSwapExactAssetInWithMetadata {
        routes: three_routes(),
        asset_in: native("usdt", 40),
        include_spot_price: true,
    };
    assert_eq!(run(msg, &mut chain), Err(ContractError::Outside("no price".to_string())));
}

#[test]
fn contributions_are_rounded_down() {
    let zero = Decimal::zero();
    assert_eq!(
        contribute(zero, Decimal { atomics: ONE }, 1, 3),
        Some(Decimal { atomics: 333_333_333_333_333_333 })
    );
    assert_eq!(contribute(zero, Decimal { atomics: 2 }, 1, 3), Some(zero));
    assert_eq!(contribute(price(1), price(5), 1, 2), Some(Decimal { atomics: 3 * ONE + ONE / 2 }));
}

#[test]
fn contributions_that_cannot_be_worked_out() {
    let zero = Decimal::zero();
    let most = Decimal { atomics: u128::MAX };
    assert_eq!(contribute(zero, price(1), 1, 0), None);
    assert_eq!(contribute(zero, price(1), u128::MAX, 1), None);
    assert_eq!(contribute(zero, most, 2, 1), None);
    assert_eq!(contribute(most, price(1), 1, 1), None);
    assert_eq!(contribute(zero, most, 1, 1), Some(most));
}

#[test]
fn a_price_over_a_zero_amount_is_not_accepted() {
    let weighted = WeightedPrice {
        routes: three_routes(),
        done: 0,
        asset_in: native("usdt", 0),
        asset_out: native("atom", 120),
        price: Decimal::zero(),
    };
    assert!(!weighted.accepts::<String>(&Ok(price(1))));
    assert!(weighted.accepts::<String>(&Err("no price".to_string())));
}

#[test]
fn adding_to_an_asset() {
    let mut coin = native("atom", 5);
    assert_eq!(coin.add(7), Some(12));
    assert_eq!(coin, native("atom", 12));
    assert_eq!(coin.add(u128::MAX - 11), None);
    assert_eq!(coin, native("atom", 12));
    let mut tokens = token("orai1x", 1);
    assert_eq!(tokens.add(u128::MAX - 1), Some(u128::MAX));
    assert_eq!(tokens, token("orai1x", u128::MAX));
}

#[test]
fn a_weighted_price_stays_below_the_highest() {
    let thirds = || -> Vec<Route> {
        (0..3)
            .map(|_| route(native("usdt", 1), vec![operation("p", "usdt", "atom")]))
            .collect()
    };
    let mut chain = chain(1);
    chain.prices = vec![Ok(price(1)), Ok(price(1)), Ok(price(1))];
    let msg = QueryMsg::SimulateSmartSwapExactAssetInWithMetadata {
        routes: thirds(),
        asset_in: native("usdt", 3),
        include_spot_price: true,
    };
    assert_eq!(
        run(msg, &mut chain),
        Ok(QueryReply::SmartExactAssetIn {
            asset_out: native("atom", 3),
            spot_price: Some(Decimal { atomics: ONE - 1 }),
        })
    );
}

#[test]
fn the_order_of_the_routes_does_not_count() {
    let expected = Ok(QueryReply::Asset(native("atom", 120)));
    for order in [[0, 1, 2], [2, 1, 0], [1, 2, 0]] {
        let mut routes = vec![];
        for i in order {
            routes.push(three_routes().swap_remove(i));
        }
        let mut chain = chain(3);
        let msg = QueryMsg::SimulateSmartSwapExactAssetIn { routes };
        assert_eq!(run(msg, &mut chain), expected);
    }
}

#[test]
fn the_order_of_the_routes_does_not_count_for_the_price() {
    for order in [[0, 1, 2], [2, 1, 0], [1, 2, 0]] {
        let mut chain = chain(3);
        let mut routes = vec![];
        for i in order {
            routes.push(three_routes().swap_remove(i));
            chain.prices.push(Ok(price([3, 6, 9][i])));
        }
        let msg = QueryMsg::SimulateSmartSwapExactAssetInWithMetadata {
            routes,
            asset_in: native("usdt", 40),
            include_spot_price: true,
        };
        assert_eq!(
            run(msg, &mut chain),
            Ok(QueryReply::SmartExactAssetIn {
                asset_out: native("atom", 120),
                spot_price: Some(price(6)),
            })
        );
    }
}

#[test]
fn the_name_of_a_pair_pool_does_not_count() {
    let of_pool = |pool: &str| {
        let mut chain = chain(3);
        let reply = run(
            QueryMsg::SimulateSwapExactAssetIn {
                asset_in: native("usdt", 7),
                swap_operations: vec![operation(pool, "usdt", "atom")],
            },
            &mut chain,
        );
        (reply, chain.simulated)
    };
    assert_eq!(of_pool("pair").0, Ok(QueryReply::Asset(native("atom", 21))));
    assert_eq!(of_pool("pair"), of_pool("another pair"));
}

#[test]
fn what_a_route_offers_counts_by_its_amount_alone() {
    let of_offer = |offer_asset| {
        let mut chain = chain(3);
        let routes = vec![route(offer_asset, two_hops())];
        let reply = run(QueryMsg::SimulateSmartSwapExactAssetIn { routes }, &mut chain);
        (reply, chain.simulated)
    };
    assert_eq!(of_offer(native("usdt", 7)).0, Ok(QueryReply::Asset(native("atom", 21))));
    assert_eq!(of_offer(native("usdt", 7)), of_offer(native("osmo", 7)));
    assert_eq!(of_offer(native("usdt", 7)), of_offer(token("orai1x", 7)));
}

#[test]
fn one_route_of_the_whole_answers_as_the_plain_swap() {
    let mut chain = chain(3);
    chain.prices = vec![Ok(price(4)), Ok(price(4))];
    let split = run(
        QueryMsg::SimulateSmartSwapExactAssetInWithMetadata {
            routes: vec![route(native("usdt", 7), two_hops())],
            asset_in: native("usdt", 7),
            include_spot_price: true,
        },
        &mut chain,
    );
    let plain = run(
        QueryMsg::SimulateSwapExactAssetInWithMetadata {
            asset_in: native("usdt", 7),
            swap_operations: two_hops(),
            include_spot_price: true,
        },
        &mut chain,
    );
    let asset_out = native("atom", 21);
    assert_eq!(
        split,
        Ok(QueryReply::SmartExactAssetIn {
            asset_out: asset_out.clone(),
            spot_price: Some(price(4)),
        })
    );
    assert_eq!(plain, Ok(QueryReply::ExactAssetIn { asset_out, spot_price: Some(price(4)) }));
}
