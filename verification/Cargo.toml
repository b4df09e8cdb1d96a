[package]
name = "iroh-hyde-auth"
version = "0.1.0"
edition = "2021"
publish = false

[dependencies]
ed25519-dalek = "3"
hyde-tee = { version = "=0.2.0", default-features = false, features = ["software"] }
iroh = { version = "1.4", default-features = false, features = ["tls-ring"] }
postcard = { version = "=1.1.3", default-features = false, features = ["alloc"] }
rand = "0.10"
serde = { version = "1", features = ["derive"] }
thiserror = "2"
tokio = { version = "1", features = ["macros", "rt-multi-thread", "sync"] }
tracing = "0.1"
