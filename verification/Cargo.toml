[package]
name = "agent_gateway"
version = "0.1.0"
edition = "2021"
publish = false

[dependencies]
serde = { version = "1", features = ["derive"] }
serde_json = "1"
chrono = "0.4"
reqwest = { version = "*", default-features = false, features = ["json"] }
actix-web = { version = "4", default-features = false, features = ["macros"] }
actix-cors = "*"
dotenvy = "*"
num_cpus = "*"
tracing = "0.1"
tracing-subscriber = { version = "0.3", features = ["env-filter"] }
tracing-actix-web = "*"
