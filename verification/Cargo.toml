[package]
name = "jlh_maps"
version = "0.1.0"
edition = "2021"
publish = false

[dependencies]
hex = "=0.4.3"
lru = "=0.12.5"
regex = "=1.13.1"
serde = { version = "=1.0.229", features = ["derive"] }
serde_repr = "=0.1.21"
serde_json = "=1.0.154"
smallvec = "=1.16.4"
shapefile = { version = "=0.6.0", features = ["geo-types"] }
geo-types = "=0.7.20"
postgres-types = "=0.2.14"
glam = "=0.29.3"
thiserror = "=1.0.69"
anyhow = "=1.0.104"
image = { version = "=0.25.10", default-features = false, features = ["png"] }
