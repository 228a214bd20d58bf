[package]
name = "git_integrate"
version = "0.1.0"
edition = "2021"
publish = false

[dependencies]
clap = "=2.34.0"
git2 = { version = "=0.20.4", default-features = false }
graphql_client = { version = "=0.16.0", default-features = false }
reqwest = { version = "=0.12.28", default-features = false, features = ["blocking", "json", "rustls-tls"] }
serde = "=1.0.229"
serde_derive = "=1.0.229"
