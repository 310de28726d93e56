[package]
name = "waveshare_s3_3p"
version = "0.1.0"
edition = "2021"
publish = false

[dependencies]
anyhow = "1"
embedded-graphics = "0.8"
embedded-svc = "*"
esp-idf-hal = "*"
esp-idf-svc = "*"
esp-idf-sys = "*"
heapless = "0.8"
libc = "0.2"
log = "0.4"
profont = "*"
serde = { version = "1", features = ["derive"] }
serde_json = "1"
tinybmp = "*"
