[package]
name = "litemon"
version = "0.1.0"
edition = "2021"
publish = false

[dependencies]
anyhow = "*"
futures-concurrency = "*"
http-body-util = "*"
hyper = { version = "*", features = ["http1", "server"] }
hyper-util = { version = "*", features = ["tokio"] }
kdl = "*"
lexopt = "*"
nix = { version = "*", features = ["fs"] }
procfs = "*"
prometheus-client = "*"
smol = "*"
tokio = { version = "*", features = ["net", "rt", "time", "sync"] }
zbus = "*"
zbus_systemd = { version = "*", features = ["systemd1"] }
