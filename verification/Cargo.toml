[package]
name = "flickr_api"
version = "0.1.0"
edition = "2021"
publish = false

[dependencies]
data-encoding = "=2.11.1"
hmac = "=0.12.1"
sha1 = "=0.10.7"
url = "=2.5.8"
rand = "=0.8.8"
xml-rs = "=0.8.29"
futures = "=0.3.34"
image = { version = "=0.24.9", default-features = false, features = ["jpeg", "png"] }
log = "=0.4.34"
reqwest = { version = "=0.11.27", features = ["json", "multipart"] }
serde = { version = "=1.0.229", features = ["derive"] }
serde_json = "=1.0.154"
serde_urlencoded = "=0.7.1"
serde-xml-rs = "=0.6.0"
tokio = { version = "=1.54.1", features = ["fs", "macros", "rt-multi-thread", "sync", "time"] }
warp = { version = "=0.3.7", default-features = false }
