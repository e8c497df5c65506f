[package]
name = "waybar_dbus_monitor"
version = "0.1.0"
edition = "2021"
publish = false

[dependencies]
zbus = "*"
clap = { version = "*", features = ["derive"] }
tokio = { version = "*", features = ["macros", "rt", "time"] }
futures-lite = "*"
log = "*"
env_logger = "*"
thiserror = "*"
