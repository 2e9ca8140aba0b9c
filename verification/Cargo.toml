[package]
name = "rsp_host_executor"
version = "0.1.0"
edition = "2021"
publish = false

[dependencies]
alloy-consensus = { version = "=1.8.3", default-features = false, features = ["std", "k256"] }
alloy-eips = { version = "=1.8.3", default-features = false, features = ["std"] }
alloy-primitives = { version = "=1.7.3", default-features = false, features = ["std"] }
alloy-provider = { version = "=1.8.3", default-features = false }
eyre = "0.6"
revm = { version = "22", default-features = false }
tokio = { version = "1", default-features = false, features = ["fs", "rt-multi-thread", "time"] }
tracing = { version = "0.1", default-features = false, features = ["std"] }
