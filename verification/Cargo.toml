[package]
name = "poh_entry"
version = "0.1.0"
edition = "2021"
publish = false

[dependencies]
dlopen = "0.1.8"
dlopen_derive = "0.1.4"
log = "0.4"
rand = "0.7"
rayon = "1"
serde = { version = "1", features = ["derive"] }
solana-measure = "1.5"
solana-merkle-tree = "1.5"
solana-metrics = "1.5"
solana-perf = "1.5"
solana-rayon-threadlimit = "1.5"
solana-sdk = "1.5"

[dev-dependencies]
chrono = "0.4"
solana-budget-program = "1.5"
