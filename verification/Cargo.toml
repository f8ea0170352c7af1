[package]
name = "gvm_lights"
version = "0.1.0"
edition = "2021"
publish = false

[dependencies]
hex = "0.4"
crc-any = "2"
itertools = "0.10"
bincode = "1.3"
serde = { version = "1", features = ["derive"] }
serde_json = "1"
bytes = "1"
tokio = { version = "1", features = ["full"] }
tokio-util = { version = "0.7", features = ["codec"] }
tokio-stream = "0.1"
futures = "0.3"
futures-util = "0.3"
btleplug = "0.11"
uuid = "1"
rumqttc = { version = "0.24", default-features = false }
clap = "3.2"
log = "0.4"
pretty_env_logger = "0.5"
dotenv = "0.15"
async-std = "1"
