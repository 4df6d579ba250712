[package]
name = "hrrr_render"
version = "0.1.0"
edition = "2021"
publish = false

[dependencies]
byteorder = "=1.5.0"
png = "=0.17.16"
chrono = "=0.4.45"
clap = { version = "=4.5.61", features = ["derive"] }
rayon = "=1.10.0"
reqwest = { version = "=0.12.28", default-features = false, features = ["blocking", "rustls-tls"] }
