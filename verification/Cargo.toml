[package]
name = "renku_cli"
version = "0.1.0"
edition = "2021"
publish = false

[dependencies]
clap = { version = "4", features = ["derive"] }
clap_complete = "4"
comrak = "*"
console = "*"
directories = "*"
env_logger = "*"
futures = "0.3"
git2 = "*"
iso8601-timestamp = "*"
log = "*"
openidconnect = "3"
regex = "1"
reqwest = { version = "*", default-features = false, features = ["json", "rustls-tls"] }
serde = { version = "1", features = ["derive"] }
serde_json = "1"
tokio = { version = "1", features = ["full"] }
toml = "*"
url = "2"
