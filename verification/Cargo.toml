[package]
name = "poison_queue"
version = "0.1.0"
edition = "2021"
publish = false

[dependencies]
anyhow = "1"
chrono = "0.4"
clap = { version = "4", features = ["derive"] }
colored = "2"
log = "0.4"
rdkafka = "*"
serde_json = "1"
similar = "2"
tabled = "*"
tokio = { version = "1", features = ["macros", "rt-multi-thread"] }
