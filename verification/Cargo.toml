[package]
name = "uptime_monitor"
version = "0.1.0"
edition = "2021"
publish = false

[dependencies]
curl = "0.4"
dns-lookup = "2"
fastping-rs = "0.2"
pretty_env_logger = "0.5"
public-ip = "0.2"
serenity = "0.11"
tokio = { version = "1", features = ["macros", "rt-multi-thread", "time"] }
