[package]
name = "vm_manager"
version = "0.1.0"
edition = "2021"
publish = false

[dependencies]
filetime = "=0.2.29"
futures = "=0.3.34"
nix = { version = "=0.31.3", features = ["signal"] }
once_cell = "=1.21.4"
qapi = { version = "=0.15.0", features = ["qga", "async-tokio-all"] }
reqwest = { version = "=0.13.5", default-features = false }
serde = { version = "=1.0.229", features = ["derive"] }
sysinfo = "=0.39.6"
tokio = { version = "=1.53.2", features = ["full"] }
toml = "=1.1.7"
