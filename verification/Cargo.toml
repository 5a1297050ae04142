[package]
name = "sway-alttab"
version = "0.1.0"
edition = "2021"
publish = false

[dependencies]
clap = "2"
daemonize = "0.4"
signal-hook = "0.1"
swayipc = "2"

[dev-dependencies]
serde_json = "1"
