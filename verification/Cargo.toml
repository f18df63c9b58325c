[package]
name = "verifying_email_binder"
version = "0.1.0"
edition = "2021"
publish = false

[dependencies]
async-trait = "=0.1.92"
axum = { version = "=0.6.20", default-features = false, features = ["http1", "json", "tokio"] }
chrono = { version = "=0.4.45", default-features = false, features = ["clock", "std"] }
ethers-contract = { version = "=2.0.14", default-features = false, features = ["providers"] }
ethers-core = { version = "=2.0.14", default-features = false }
ethers-providers = { version = "=2.0.14", default-features = false }
ethers-signers = { version = "=2.0.14", default-features = false }
eyre = { version = "=0.6.14", default-features = false }
futures = { version = "=0.3.34", default-features = false, features = ["std"] }
hyper = { version = "=0.14.32", features = ["server", "tcp", "http1"] }
lettre = { version = "=0.10.4", default-features = false, features = ["builder", "smtp-transport", "rustls-tls"] }
rand = "=0.8.8"
regex = "=1.13.1"
serde = { version = "=1.0.229", features = ["derive"] }
serde_json = { version = "=1.0.154", features = ["preserve_order"] }
sqlx = { version = "=0.6.3", default-features = false, features = ["postgres", "runtime-tokio-rustls", "chrono", "macros", "migrate"] }
tokio = { version = "=1.54.1", features = ["rt-multi-thread", "time"] }
tower-http = { version = "=0.4.4", features = ["cors", "trace"] }
tracing = "=0.1.44"
