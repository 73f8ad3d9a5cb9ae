[package]
name = "gremvm"
version = "0.1.0"
edition = "2021"
publish = false

[dependencies]
clap = { version = "4", features = ["derive"] }
getrandom = "0.3"
hex = "0.4"
libc = "0.2"
nix = { version = "0.30", features = ["term"] }
plist = "1"
rpassword = "7"
serde = { version = "1", features = ["derive"] }
serde_json = "1"
signal-hook = "0.3"
tempfile = "3"
