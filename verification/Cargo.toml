[package]
name = "filen-menubar"
version = "0.1.23"
edition = "2021"
publish = false

[dependencies]
chrono = "0.4"
dirs = "*"
log = "0.4"
serde = { version = "1", features = ["derive"] }
serde_json = "1"
tokio = { version = "1", features = ["full"] }
fern = "*"
rust-i18n = "*"
sys-locale = "*"
open = "*"
libc = "0.2"
zeroize = "1"
thiserror = "*"
async-trait = "0.1"
portable-pty = "*"
