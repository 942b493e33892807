[package]
name = "pubsub_bench"
version = "0.1.0"
edition = "2021"
publish = false

[dependencies]
anyhow = "=1.0.104"
clap = { version = "=3.2.25", features = ["derive"] }
hex = "=0.4.3"
humantime = "=2.4.0"
log = "=0.4.34"
pretty_env_logger = "=0.4.0"
rumqttc = { version = "=0.24.0", default-features = false }
serde = { version = "=1.0.229", features = ["derive"] }
serde_json = "=1.0.154"
tokio = { version = "=1.54.1", features = ["macros", "rt-multi-thread", "time"] }
zenoh = { version = "=0.11.0", default-features = false, features = ["transport_tcp"] }
zenoh-buffers = "=0.11.0"
zenoh-codec = "=0.11.0"
zenoh-link = { version = "=0.11.0", default-features = false, features = ["transport_tcp"] }
zenoh-protocol = "=0.11.0"
zenoh-transport = { version = "=0.11.0", default-features = false, features = ["transport_tcp"] }
