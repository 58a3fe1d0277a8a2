[package]
name = "limbo"
version = "0.1.0"
edition = "2021"
publish = false

[dependencies]
clap = { version = "=4.6.7", features = ["derive"] }
color = "=0.3.3"
config = { version = "=0.15.27", default-features = false, features = ["json", "toml", "yaml"] }
dirs = "=7.0.0"
freedesktop-icons = "=0.4.0"
hyprland = "=0.4.0-beta.3"
iced = { version = "=0.13.1", default-features = false }
jiff = "=0.2.38"
niri-ipc = "=26.4.0"
serde = { version = "=1.0.229", features = ["derive"] }
serde_json = "=1.0.154"
smithay-client-toolkit = { version = "=0.21.1", default-features = false }
sysinfo = { version = "=0.39.6", default-features = false, features = ["component", "system"] }
system-tray = "=0.8.9"
tokio = { version = "=1.54.1", features = ["io-util", "macros", "net", "rt-multi-thread", "sync", "time"] }
