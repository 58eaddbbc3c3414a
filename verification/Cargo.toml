[package]
name = "osquery_rs_sdk"
version = "0.2.0"
edition = "2021"
publish = false

[dependencies]
serde = { version = "=1.0.229", features = ["derive"] }
serde_json = "=1.0.154"
thrift = "=0.23.0"
tokio = { version = "=1.54.1", features = ["rt", "signal", "macros", "net", "time", "io-util"] }
winapi = { version = "=0.3.9", features = ["handleapi", "ioapiset", "namedpipeapi", "winbase", "winerror"] }
