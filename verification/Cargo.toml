[package]
name = "remote_commander"
version = "0.1.0"
edition = "2021"
publish = false

[dependencies]
sysinfo = { version = "=0.30.13", default-features = false }
system_shutdown = "=3.0.0"
webbrowser = "=1.2.6"
teloxide = { version = "0.12", default-features = false, features = ["macros", "ctrlc_handler", "rustls"] }
tokio = { version = "=1.54.1", features = ["rt-multi-thread", "macros", "sync"] }
tracing = "=0.1.44"
tracing-subscriber = { version = "=0.3.23", features = ["env-filter"] }
dotenvy = "=0.15.7"
takecell = "=0.1.1"
