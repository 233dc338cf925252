[package]
name = "tortuga"
version = "0.1.0"
edition = "2021"
publish = false
rust-version = "1.95"

[dependencies]
leb128 = "=0.2.7"
byteorder = "=1.5.0"
uuid = { version = "=1.29.1", features = ["v4", "v5"] }
base64 = "=0.21.7"
unicode-xid = "=0.2.6"
http = "=1.5.0"
bytes = "=1.12.1"
tokio = { version = "=1.54.1", features = ["rt", "rt-multi-thread", "sync", "net", "io-util", "process", "macros", "time"] }
futures = "=0.3.34"
serde_yaml = "=0.9.34"
serde = { version = "=1.0.229", features = ["derive"] }
colored = "=3.1.1"
thiserror = "=2.0.21"
wasmtime = { version = "=47.0.4", default-features = false, features = ["cranelift", "runtime", "std"] }
