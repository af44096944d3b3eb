[package]
name = "lyra-vega-dbus"
version = "0.1.0"
edition = "2021"
publish = false

[dependencies]
zbus = "=5.19.0"
gettext-rs = { version = "=0.7.7", features = ["gettext-system"] }
async-io = "=2.6.0"
async-lock = "=3.5.0"
futures-lite = "=2.6.1"
futures-util = "=0.3.34"

[dev-dependencies]
roxmltree = "0.20"
