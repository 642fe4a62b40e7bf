# OraiDEX swap adapter

An adapter between an entry point contract and the OraiDEX router, verified with
[Verus](https://github.com/verus-lang/verus).

The entry point sends coins or tokens with a list of swap operations. The adapter
carries the operations out one after the other and returns what comes out. It
also answers what such a swap would give.

## Layout

- `src/` is the adapter itself, without any input or output. Treating a message,
  answering a query and setting the adapter up each go in steps: a step is either
  the result, or a question to the chain together with what is known so far.
  - `asset`, `decimal`, `operation`, `hop`, `message`, `error`: what the adapter
    works with.
  - `instantiate`, `execute`, `query`: the steps. `step` (for queries `answer`)
    holds the functions, `meaning` what comes of a request as a function of the
    chain's answers, and `laws` what is proved of it; more on queries is proved in
    `split`, `price` and `sound`.
  - `history`: what is proved of an adapter over its whole life.
- `app/` runs the steps on a CosmWasm chain. It is no contract by itself: a
  deployment implements the trait `Platform` (storage cells, the treatment of
  assets, pool ids, messages to pools) and exports the four entry points with it.
- `tests/` runs the steps on made-up chains.

## What is trusted

Three functions of `src/` call out: two to `cosmwasm_std` for the ratio and the
product of decimals, and one to `cw_utils` for the coin that comes with a
message. Each says above its contract what it claims of the call.
