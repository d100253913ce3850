[package]
name = "trade_executor"
version = "0.1.0"
edition = "2021"
publish = false

[dependencies]
chrono = "=0.4.45"
ethers-core = { version = "*", default-features = false }
ethers-providers = { version = "*", default-features = false, features = ["rustls"] }
ethers-signers = { version = "*", default-features = false }
serde = { version = "*", features = ["derive"] }
serde_json = "*"
tokio = { version = "*", features = ["rt-multi-thread", "macros", "time"] }
