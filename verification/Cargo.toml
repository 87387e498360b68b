[package]
name = "guest_pages"
version = "0.1.0"
edition = "2021"
publish = false

[dependencies]
regex = "=1.13.1"
serde_json = { version = "=1.0.154", features = ["preserve_order"] }
htmlescape = "=0.3.1"
http = "=1.5.0"
maud = "=0.27.0"
lazy_static = "=1.5.1"
graphql_client = "=0.16.0"
