[package]
name = "bile"
version = "0.1.0"
edition = "2021"
publish = false

[dependencies]
anyhow = "*"
askama = "*"
axum = "*"
axum-response-cache = "*"
clap = { version = "*", features = ["derive"] }
comrak = { version = "*", default-features = false }
figment = { version = "*", features = ["toml", "env"] }
git2 = { version = "*", default-features = false }
http = "*"
mime = "*"
serde = { version = "*", features = ["derive"] }
syntect = { version = "*", default-features = false, features = ["default-fancy"] }
tokio = { version = "*", features = ["full"] }
tower-helmet = "*"
tower-http = { version = "*", features = ["trace", "timeout"] }
tracing = "*"
tracing-error = "*"
tracing-subscriber = { version = "*", features = ["env-filter"] }
trim-in-place = "*"
two-face = { version = "*", default-features = false, features = ["syntect-fancy"] }
