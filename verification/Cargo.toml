[package]
name = "uplink"
version = "0.1.0"
edition = "2021"
publish = false

[dependencies]
clap = { version = "4", default-features = false, features = ["std"] }
dioxus = { version = "0.3", default-features = false, features = ["macro", "hooks", "html"] }
dioxus-router = { version = "0.3", default-features = false }
fdlimit = "0.2"
futures = "0.3"
notify = { version = "5", default-features = false }
once_cell = "1"
open = "4"
tokio = { version = "1", default-features = false, features = ["sync", "time", "rt"] }
uuid = "1"
