[package]
name = "crypto_crawler_ffi"
version = "0.1.0"
edition = "2021"
publish = false

[dependencies]
crypto-crawler = "=4.7.9"
crypto-market-type = "=1.1.6"
crypto-msg-type = "=1.0.12"
# Build pin only, used directly by nothing here: the engine's
# transitive crypto-message dependency ships generated code that
# demands exactly this protobuf version.
protobuf = "=3.5.0"
tokio = { version = "=1.53.2", features = ["rt", "time"] }
