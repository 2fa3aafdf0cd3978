[package]
name = "boincrs"
version = "0.1.0"
edition = "2021"
publish = false

[dependencies]
md5 = "0.7"
quick-xml = { version = "0.37", features = ["serialize"] }
serde = { version = "1", features = ["derive"] }
thiserror = "2"
tokio = { version = "1", features = ["rt-multi-thread", "macros", "net", "io-util", "time"] }
async-trait = "0.1"
clap = { version = "4", features = ["derive"] }
crossterm = "0.28"
ratatui = "0.29"
