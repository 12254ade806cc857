[package]
name = "chess_store"
version = "0.1.0"
edition = "2021"
publish = false

[dependencies]
shakmaty = "=0.27.3"
serde = { version = "=1.0.229", features = ["derive"] }
bincode = "=2.0.1"
quick-xml = { version = "=0.42.0", features = ["serialize"] }
strsim = "=0.11.1"
diesel = { version = "=2.3.14", features = ["sqlite"] }
libsqlite3-sys = { version = "=0.38.2", features = ["bundled"] }
