[package]
name = "message-io"
version = "0.1.0"
edition = "2021"
publish = false

[dependencies]
integer-encoding = "3"
mio = { version = "0.8", features = ["os-poll", "net"] }
socket2 = { version = "0.5", features = ["all"] }
tungstenite = "0.20"
url = "2"
log = "0.4"
serde = { version = "1", features = ["derive"] }
bincode = "1"
crossbeam = "0.8"
lazy_static = "1"
net2 = "0.2"
strum = { version = "0.24", features = ["derive"] }
doc-comment = "0.3"
