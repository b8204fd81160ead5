[package]
name = "git_prole"
version = "0.1.0"
edition = "2021"
publish = false

[dependencies]
calm_io = "=0.1.1"
camino = "=1.2.6"
clap = { version = "=4.6.7", features = ["derive", "env"] }
clap_complete = "=4.6.11"
command-error = "=0.8.0"
dirs = "=7.0.0"
fs-err = "=3.3.2"
miette = "=7.6.0"
owo-colors = { version = "=4.4.0", features = ["supports-colors"] }
path-absolutize = "=3.1.1"
regex = "=1.13.1"
serde = { version = "=1.0.229", features = ["derive"] }
shell-words = "=1.1.1"
tempfile = "=3.27.0"
toml = "=1.1.8"
tracing = "=0.1.44"
unindent = "=0.2.4"
utf8-command = "=1.0.1"
which = "=8.0.6"
xdg = "=3.0.0"

[dev-dependencies]
rustc-hash = "=2.0.0"
