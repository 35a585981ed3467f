[package]
name = "borderless"
version = "0.2.0"
edition = "2021"
publish = false

[dependencies]
blake3 = "1"
hex = "0.4"
ed25519-dalek = { version = "2", features = ["rand_core"] }
rand = "0.8"
serde = { version = "1", features = ["derive"] }
postcard = { version = "1", features = ["alloc"] }
toml = "0.8"
anyhow = "1"
thiserror = "1"
tokio = { version = "1", features = ["full"] }
tokio-rustls = { version = "0.26", default-features = false, features = ["ring", "tls12", "logging"] }
rustls = { version = "0.23", default-features = false, features = ["ring", "std", "tls12", "logging"] }
rcgen = { version = "0.13", default-features = false, features = ["crypto", "ring", "pem"] }
clap = { version = "4", features = ["derive", "env"] }
tracing = "0.1"
tracing-subscriber = { version = "0.3", features = ["env-filter"] }
directories = "5"
parking_lot = "0.12"
arboard = { version = "3", default-features = false }
x11rb = { version = "0.13", features = ["xinput", "xtest"] }
async-trait = "0.1"
bitflags = { version = "2", features = ["serde"] }

[dev-dependencies]
tempfile = "3"
