[package]
name = "lab_telemetry"
version = "0.1.0"
edition = "2021"
publish = false

[dependencies]
rand = "=0.8.8"
uuid = { version = "=1.29.0", features = ["v4"] }
actix-web = "=4.18.1"
anyhow = "=1.0.104"
apache-avro = "=0.22.0"
clap = { version = "=4.6.7", features = ["cargo"] }
dotenv = "=0.15.0"
futures = "=0.3.34"
jsonwebtoken = "=9.3.1"
prometheus-client = "=0.25.1"
rdkafka = "=0.39.0"
reqwest = { version = "=0.13.5", features = ["json", "query"] }
serde = { version = "=1.0.229", features = ["derive"] }
serde_json = "=1.0.154"
sqlx = { version = "=0.7.4", default-features = false, features = ["postgres", "runtime-tokio"] }
time = { version = "=0.3.55", features = ["formatting", "parsing"] }
tokio = { version = "=1.54.1", features = ["rt-multi-thread", "macros", "time"] }
tracing = "=0.1.44"
tracing-appender = "=0.2.5"
tracing-subscriber = { version = "=0.3.23", features = ["env-filter", "json", "time"] }
