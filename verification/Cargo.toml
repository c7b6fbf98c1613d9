[package]
name = "headstash"
version = "0.1.0"
edition = "2021"
publish = false

[dependencies]
anybuf = "=0.5.2"
cosmwasm-std = { version = "=2.3.6", features = ["stargate"] }
hex = "=0.4.3"
cw-storage-plus = "=2.0.0"
cw-ownable = "=2.1.0"
cw2 = "=2.0.0"
cosmwasm-schema = "=2.3.6"
thiserror = "=1.0.69"
secret-cosmwasm-std = "=1.1.11"
cosmos-sdk-proto = "=0.27.0"
cw-ica-controller = "=0.20.0"
sha3 = "0.10"
