[package]
name = "coeus"
version = "0.1.0"
edition = "2021"
publish = false

[dependencies]
bytes = "=1.12.1"
clap = { version = "=4.6.7", features = ["derive"] }
colored = "=3.1.1"
easy-config-store = "=0.3.1"
eyre = "=0.6.14"
futures-util = { version = "=0.3.34", features = ["sink"] }
git2 = { version = "=0.21.0", default-features = false }
lazy_static = "=1.5.1"
log = "=0.4.35"
postcard = { version = "=1.1.3", features = ["use-std"] }
proc-macro2 = "1"
quote = "1"
rand = "=0.10.3"
serde = { version = "=1.0.229", features = ["derive"] }
snow = "=0.10.0"
syn = { version = "2", features = ["full"] }
tempfile = "=3.27.0"
tokio = { version = "=1.54.1", features = ["full"] }
tokio-util = { version = "=0.7.20", features = ["codec"] }
toml = "=0.8.23"
