[package]
name = "oliviabot"
version = "0.1.0"
edition = "2021"
publish = false

[dependencies]
anyhow = "1"
chrono = "0.4"
chrono-humanize = "0.2"
dotenvy = "0.15"
envy = "0.4"
git2 = { version = "*", default-features = false }
poise = "0.6"
r2d2 = "0.8"
r2d2_sqlite = "*"
rand = "0.8"
regex = "1"
rusqlite = { version = "*", features = ["csvtab", "functions"] }
serde = { version = "1", features = ["derive"] }
tap = "1"
tokio = { version = "1", features = ["macros", "rt-multi-thread", "signal", "sync"] }
tracing = "0.1"
tracing-subscriber = "0.3"
