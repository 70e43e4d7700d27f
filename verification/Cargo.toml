[package]
name = "net_infra"
version = "0.1.0"
edition = "2021"
publish = false

[dependencies]
async-trait = "0.1"
base64 = "0.21"
boring = "*"
futures-util = "0.3"
http = "0.2"
hyper = { version = "0.14", default-features = false }
log = "0.4"
tokio = { version = "1", features = ["net", "time", "io-util", "rt", "macros"] }
tokio-boring = "*"
tungstenite = { version = "0.20", default-features = false }
url = "2"
