[package]
name = "bim_core"
version = "0.1.0"
edition = "2021"
publish = false

[dependencies]
url = "2"
rustls = { version = "0.23", default-features = false, features = ["ring", "std", "tls12"] }
tokio = { version = "1", features = ["rt-multi-thread", "net", "time", "io-util"] }
tokio-rustls = { version = "0.26", default-features = false, features = ["ring", "tls12"] }
webpki-roots = "0.26"
getopts = "0.2"
env_logger = "0.11"
log = "0.4"
