[package]
name = "wednesday"
version = "0.1.0"
edition = "2021"
publish = false

[dependencies]
serde_json = "=1.0.151"
rand = "=0.10.3"
alea = "=0.2.2"
anyhow = "=1.0.104"
tokio = { version = "=1.53.2", features = ["rt-multi-thread", "macros", "time", "sync"] }
reqwest = { version = "=0.11.27", default-features = false, features = ["json"] }
teloxide = { version = "=0.12.2", features = ["macros"] }
# teloxide-core asks for takecell 0.1, which resolves to 0.1.2, whose rustc
# floor is above this crate's toolchain; hold the older patch.
takecell = "=0.1.1"
