[package]
name = "bolt_proto"
version = "0.1.0"
edition = "2021"
publish = false

[dependencies]
async-trait = "0.1"
bb8 = "0.8"
bytes = "1"
futures-util = { version = "0.3", features = ["io"] }
thiserror = "1"
tokio = { version = "1", features = ["io-util", "net", "rt", "macros"] }
tokio-util = { version = "0.7", features = ["compat"] }
