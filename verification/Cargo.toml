[package]
name = "github_stars_server"
version = "0.1.0"
edition = "2021"
publish = false

[dependencies]
anyhow = "=1.0.104"
axum = { version = "=0.7.9", default-features = false, features = ["http1", "json", "query", "tokio", "tracing"] }
chrono = "=0.4.45"
clap = { version = "=4.5.61", features = ["derive", "env"] }
colored = "=2.2.0"
deadpool = { version = "=0.12.3", features = ["managed", "rt_tokio_1"] }
dotenv = "=0.15.0"
futures = "=0.3.34"
ractor = { version = "=0.14.7", features = ["async-trait"] }
reqwest = { version = "=0.12.28", default-features = false, features = ["json"] }
serde = { version = "=1.0.229", features = ["derive"] }
serde_json = "=1.0.154"
sysinfo = { version = "0.33", default-features = false, features = ["system"] }
thiserror = "=1.0.69"
tokio = { version = "=1.54.1", features = ["full"] }
tower-http = { version = "=0.5.2", features = ["trace"] }
tracing = "=0.1.44"
tracing-subscriber = { version = "=0.3.23", features = ["env-filter"] }
