[package]
name = "keyvault_tui"
version = "0.1.0"
edition = "2021"
publish = false

[dependencies]
fuzzy-matcher = "*"
serde_json = "*"
azure_core = "*"
azure_identity = "*"
azure_security_keyvault_secrets = "*"
clipboard = "*"
crossterm = "*"
futures = "*"
ratatui = "*"
reqwest = { version = "*", features = ["json"] }
throbber-widgets-tui = "*"
time = "*"
tokio = { version = "*", features = ["full"] }
tracing = "*"
tracing-subscriber = { version = "*", features = ["env-filter"] }
