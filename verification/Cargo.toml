[package]
name = "deezer_tui"
version = "0.1.0"
edition = "2021"
publish = false

[dependencies]
blowfish = "0.9"
cbc = "0.1"
md-5 = "0.10"
regex = "1"
serde = { version = "1", features = ["derive"] }
serde_json = "1"
thiserror = "1"
anyhow = "1"
tokio = { version = "1", features = ["rt-multi-thread", "macros", "net", "io-util", "time", "sync"] }
reqwest = { version = "0.12", default-features = false, features = ["json", "cookies", "rustls-tls"] }
ratatui = "0.29"
crossterm = "0.28"
directories = "5"
libc = "0.2"
tracing = "0.1"
tracing-subscriber = { version = "0.3", default-features = false, features = ["env-filter", "fmt"] }
