[package]
name = "niri_lua"
version = "0.1.0"
edition = "2021"
publish = false

[dependencies]
convert_case = "*"
indexmap = "*"
regex = "*"
mlua = { version = "*", features = ["lua54", "vendored"] }
niri-ipc = "*"
serde_json = "*"
log = "*"
anyhow = "*"
syn = { version = "2", features = ["full"] }
quote = "1"
proc-macro2 = "1"
