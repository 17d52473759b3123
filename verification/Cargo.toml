[package]
name = "databend_query_core"
version = "0.1.0"
edition = "2021"
publish = false

[dependencies]
base64 = "=0.23.1"
chrono = "=0.4.45"
chrono-tz = "=0.10.4"
cron = "=0.17.0"
jsonb = "=0.3.0"
parquet2 = { version = "=0.17.2", default-features = false }
serde = { version = "1", features = ["derive"] }
serde_json = "=1.0.154"
ethnum = "=1.5.3"
enum-as-inner = "*"
log = "*"
tracing = "*"
typetag = "*"
async-trait = "*"
async-channel = "*"
async-backtrace = "*"
