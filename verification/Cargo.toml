[package]
name = "fv"
version = "0.1.0"
edition = "2021"
publish = false

[dependencies]
num-format = "=0.4.4"
unicode-width = "=0.2.3"
chardetng = "=1.0.0"
chrono = "=0.4.45"
anyhow = "=1.0.104"
crossterm = "=0.29.0"
ratatui = "=0.30.2"
dirs = "=7.0.0"
open = "=5.4.5"
serde = { version = "=1.0.229", features = ["derive"] }
serde_json = "=1.0.154"
notify = "=8.2.1"
zip = { version = "=9.2.2", default-features = false, features = ["deflate"] }
trash = "=5.2.9"
infer = "=0.22.0"
imagesize = "=0.15.0"
tracing = "=0.1.44"
libc = "=0.2.191"
arboard = { version = "=3.7.0", default-features = false }
symphonia = "=0.6.1"
image = { version = "=0.25.10", default-features = false, features = ["png", "jpeg", "gif"] }
ratatui-image = { version = "=11.1.0", default-features = false, features = ["crossterm"] }
