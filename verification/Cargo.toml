[package]
name = "bdk-cli"
version = "0.1.0"
edition = "2021"
publish = false

[dependencies]
bdk_wallet = { version = "=3.2.0", features = ["keys-bip39", "compiler"] }
bdk_kyoto = "=0.18.1"
bdk_electrum = "=0.24.1"
bdk_esplora = { version = "=0.22.3", features = ["tokio"] }
bdk_bitcoind_rpc = "=0.22.1"
bitcoin = "=0.32.102"
miniscript = "=12.3.7"
bip39 = "=2.2.2"
clap = { version = "=4.6.7", features = ["derive"] }
dirs = "=7.0.0"
js-sys = "=0.3.106"
log = "=0.4.34"
regex = "=1.13.1"
serde = { version = "=1.0.229", features = ["derive"] }
serde_json = "=1.0.154"
tokio = { version = "=1.54.1", features = ["full"] }
tracing = "=0.1.44"
tracing-subscriber = "=0.3.23"
wasm-bindgen = "=0.2.129"
wasm-bindgen-futures = "=0.4.79"
wasm-logger = "=0.2.0"
