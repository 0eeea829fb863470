[package]
name = "oidc_pkce"
version = "0.1.0"
edition = "2021"
publish = false

[dependencies]
rand = "0.8"
sha2 = "0.10"
serde_json = "1"
reqwest = { version = "0.12", default-features = false, features = ["json"] }
tokio = { version = "1", features = ["rt-multi-thread", "macros", "sync"] }
warp = { version = "0.3", default-features = false }
opener = "0.7"
dotenv = "0.15"
