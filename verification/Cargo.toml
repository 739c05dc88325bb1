[package]
name = "goxlr_updater"
version = "0.1.0"
edition = "2021"
publish = false

[dependencies]
byteorder = "=1.5.0"
reqwest = { version = "=0.11.27", default-features = false, features = ["blocking", "rustls-tls"] }
rfd = { version = "=0.12.1", default-features = false, features = ["xdg-portal"] }
sysinfo = "=0.30.13"
tokio = { version = "1", features = ["sync"] }
