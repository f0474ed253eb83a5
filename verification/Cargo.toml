[package]
name = "souko"
version = "0.1.0"
edition = "2021"
publish = false

[dependencies]
regex = "1"
url = "2"
clap = { version = "4", features = ["derive", "env"] }
clap_complete = "4"
clap_complete_nushell = "4"
clap_mangen = "*"
color-eyre = "*"
chrono = "*"
directories = "*"
dunce = "*"
git2 = "*"
git2_credentials = "*"
remove_dir_all = "*"
serde = { version = "1", features = ["derive"] }
serde_json = "1"
tempfile = "3"
toml_edit = { version = "*", features = ["serde"] }
tracing = "*"
tracing-subscriber = { version = "*", features = ["env-filter"] }
walkdir = "2"
