[package]
name = "chaudloader"
version = "0.1.0"
edition = "2021"
publish = false

[dependencies]
anyhow = "*"
log = "*"
retour = "*"
winapi = { version = "0.3", features = ["ntdef", "minwindef", "minwinbase", "winbase", "libloaderapi"] }
