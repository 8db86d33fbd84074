[package]
name = "rss_trans"
version = "0.1.0"
edition = "2021"
publish = false

[dependencies]
rss = "*"
atom_syndication = "*"
chrono = "*"
sha2 = "*"
base64 = "*"
actix-web = { version = "*", default-features = false, features = ["macros"] }
tokio = { version = "*", features = ["rt", "rt-multi-thread", "sync", "macros"] }
reqwest = { version = "*", default-features = false }
feed-rs = "*"
serde = { version = "*", features = ["derive"] }
serde_json = "*"
jsonwebtoken = "*"
mime = "*"
url = "*"
env_logger = "*"
bytes = "*"
sqlx = { version = "*", default-features = false, features = ["any"] }
aws-config = { version = "*", default-features = false }
aws-sdk-s3 = { version = "*", default-features = false }
aws-credential-types = "*"
aws-smithy-types = "*"
