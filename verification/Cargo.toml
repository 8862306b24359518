[package]
name = "op_rbuilder"
version = "0.1.0"
edition = "2021"
publish = false

[dependencies]
alloy-consensus = { version = "1", default-features = false, features = ["std", "k256"] }
alloy-primitives = { version = "1", default-features = false, features = ["std"] }
alloy-rlp = { version = "0.3", default-features = false, features = ["std"] }
eyre = "0.6"
itertools = "0.14"
op-alloy-consensus = { version = "0.24", default-features = false, features = ["std", "k256"] }
tokio = { version = "1", default-features = false, features = ["sync"] }
tracing = { version = "0.1", default-features = false, features = ["std"] }
