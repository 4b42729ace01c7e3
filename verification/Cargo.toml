[package]
name = "happye_bot"
version = "0.1.0"
edition = "2021"
publish = false

[dependencies]
chrono = "=0.4.45"
base64 = "=0.23.1"
serde = { version = "=1.0.229", features = ["derive"] }
serde_json = "=1.0.151"
tokio = { version = "=1.53.2", features = ["macros", "rt-multi-thread", "sync", "time", "fs", "signal"] }
reqwest = { version = "=0.12.28", default-features = false, features = ["json", "rustls-tls"] }
twitch-irc = { version = "=6.1.3", default-features = false, features = ["transport-tcp-rustls-webpki-roots", "refreshing-token-rustls-webpki-roots"] }
actix-web = { version = "=4.15.0", default-features = false, features = ["macros"] }
open = "=5.4.4"
dotenvy = "=0.15.7"
async-trait = "=0.1.92"
thiserror = "=2.0.21"
