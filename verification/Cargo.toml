[package]
name = "mixdown"
version = "0.1.0"
edition = "2021"
publish = false

[dependencies]
rand = "0.9"
flac-codec = "*"
base64 = "0.22"
mime = "0.3"
sysinfo = "*"
serde = { version = "1", features = ["derive"] }
serde_json = "1"
serde_yml = "*"
symphonia = "*"
symphonium = "*"
id3 = "*"
bwavfile = "*"
mime_guess = "2"

[dev-dependencies]
metaflac = "*"
