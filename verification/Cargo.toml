[package]
name = "supervisor"
version = "0.1.0"
edition = "2021"
publish = false

[dependencies]
strip-ansi-escapes = "*"
uuid = { version = "*", features = ["v4"] }
nix = { version = "*", features = ["signal"] }
tokio = { version = "*", features = ["macros", "process", "io-util", "rt-multi-thread", "sync", "time"] }
clap = { version = "*", features = ["derive"] }
