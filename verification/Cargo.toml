[package]
name = "termind"
version = "0.3.0"
edition = "2021"
publish = false

[dependencies]
vte = "0.13"
nix = { version = "0.27", features = ["process", "signal", "term", "fs"] }
libc = "0.2"
tokio = { version = "1", features = ["rt-multi-thread", "macros", "io-util", "fs", "time", "signal", "sync"] }
dirs = "5"
tracing = "0.1"
tracing-subscriber = "0.3"
thiserror = "1"
clap = { version = "4", features = ["derive"] }
chrono = { version = "0.4", features = ["serde"] }
serde = { version = "1", features = ["derive"] }
serde_json = "1"
uuid = { version = "1", features = ["v4"] }
gethostname = "0.4"
num_cpus = "1"
