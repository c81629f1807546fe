[package]
name = "cosmic_ext_quake_terminal"
version = "0.1.0"
edition = "2021"
publish = false

[dependencies]
clap = { version = "*", features = ["derive"] }
futures = "*"
nix = { version = "*", features = ["poll", "process", "signal"] }
serde = { version = "*", features = ["derive"] }
tokio = { version = "*", features = ["macros", "rt", "sync", "time"] }
tracing = "*"
tracing-journald = "*"
tracing-subscriber = { version = "*", features = ["env-filter"] }
wayland-client = "*"
wayland-protocols = { version = "*", features = ["client", "staging"] }
