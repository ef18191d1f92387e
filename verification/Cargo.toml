[package]
name = "mapvina_native"
version = "0.1.0"
edition = "2021"
publish = false

[dependencies]
image = { version = "=0.25.10", default-features = false }
url = "=2.5.8"
log = "=0.4.35"
thiserror = "=2.0.21"
tokio = { version = "=1.54.1", default-features = false, features = ["sync"] }
cxx = "=1.0.205"
serde_json = "=1.0.154"
geojson = "=1.0.0"
