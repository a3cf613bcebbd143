[package]
name = "musq"
version = "0.1.0"
edition = "2021"
publish = false

[dependencies]
atoi = "=2.0.0"
bytemuck = "=1.25.2"
hashlink = "=0.12.2"
indexmap = "=2.14.2"
sqlformat = "=0.5.0"
log = "=0.4.35"
tracing = "=0.1.44"
serde = "=1.0.229"
serde_json = "=1.0.154"
libsqlite3-sys = { version = "=0.39.1", features = ["bundled"] }
bstr = { version = "1", default-features = false, features = ["alloc"] }
