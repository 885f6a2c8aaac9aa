[package]
name = "stardust_panel_item"
version = "0.1.0"
edition = "2021"
publish = false

[dependencies]
stardust-xr-wire = "=0.51.0"
stardust-xr-fusion = "=0.51.0"
stardust-xr-gluon = "=0.51.0"
stardust-xr-asteroids = "=0.51.0"
flatbuffers = "=25.12.19"
serde = { version = "=1.0.229", features = ["derive"] }
thiserror = "=2.0.21"
tokio = { version = "=1.54.1", features = ["net", "sync", "rt", "macros"] }
tracing = "=0.1.44"
zbus = "=5.19.0"
derive_setters = "=0.1.9"
derive-where = "=1.7.0"
