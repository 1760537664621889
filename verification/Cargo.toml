[package]
name = "osm_extract"
version = "0.1.0"
edition = "2021"
publish = false

[dependencies]
osmpbf = "0.3"
rstar = "0.12"
rusqlite = "*"
serde = { version = "1", features = ["derive"] }
