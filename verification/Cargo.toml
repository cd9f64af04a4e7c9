[package]
name = "prediction_engine"
version = "0.1.0"
edition = "2021"
publish = false

[dependencies]
chrono = "0.4"
serde = { version = "1", features = ["derive"] }
serde_json = "1"
anyhow = "1"
log = "0.4"
env_logger = "0.11"
dotenvy = "0.15"
clap = { version = "4", features = ["derive"] }
tokio = { version = "1", features = ["full"] }
sqlx = { version = "0.8", default-features = false, features = ["postgres", "runtime-tokio", "chrono"] }
async-trait = "0.1"
futures-util = "0.3"
tokio-postgres = "0.7"
deadpool-postgres = "0.14"
linfa = "0.7"
linfa-logistic = "0.7"
ndarray = "0.15"
ratatui = "0.29"
crossterm = "0.28"
