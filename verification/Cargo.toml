[package]
name = "oraidex_adapter"
version = "0.1.0"
edition = "2021"
publish = false

[dependencies]
cosmwasm-std = "=1.5.11"
cw2 = "=1.1.2"
cw20 = "=1.1.2"
cw-utils = "=1.0.3"
cw-storage-plus = "=1.2.0"
oraiswap = "=1.0.1"
# Nothing here names protobuf. The generated code in oraiswap 1.0.1 compiles with
# protobuf 3.2.0 only, and this line holds it there.
protobuf = "=3.2.0"
serde = { version = "=1.0.229", features = ["derive"] }
serde_json = "=1.0.154"
