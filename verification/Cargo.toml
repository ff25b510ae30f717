[package]
name = "metric_bridge"
version = "0.1.0"
edition = "2021"
publish = false

[dependencies]
serde_json = "=1.0.151"
clap = { version = "=4.6.7", features = ["derive"] }
env_logger = "=0.11.11"
eventsource-client = "=0.17.5"
futures-util = "=0.3.34"
graphyne = "=0.2.5"
launchdarkly-sdk-transport = "=0.1.4"
log = "=0.4.34"
tokio = { version = "=1.53.2", features = ["rt-multi-thread", "macros"] }
