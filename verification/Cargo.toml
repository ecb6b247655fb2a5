[package]
name = "system_manager_server"
version = "0.1.0"
edition = "2021"
publish = false

[dependencies]
argon2 = { version = "=0.5.3", features = ["std"] }
askama = "=0.16.1"
axum = { version = "=0.8.9", features = ["ws"] }
battery = "=0.7.8"
directories = "=6.0.0"
env_logger = "=0.11.11"
futures-util = "=0.3.34"
libc = "=0.2.191"
libloading = "=0.9.0"
log = "=0.4.34"
once_cell = "=1.21.4"
pam = "=0.7.0"
rustls = "=0.23.46"
rustls-pemfile = "=2.2.0"
serde = { version = "=1.0.229", features = ["derive"] }
serde_json = "=1.0.154"
sysinfo = "=0.39.6"
tokio = { version = "=1.54.1", features = ["full"] }
tokio-rustls = "=0.26.6"
tokio-tungstenite = "=0.30.0"
toml = "=1.1.8"
tower-http = { version = "=0.7.1", features = ["fs"] }
tower-sessions = "=0.15.0"
users = "=0.11.0"
