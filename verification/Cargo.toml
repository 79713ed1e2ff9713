[package]
name = "procstop"
version = "0.1.0"
edition = "2021"
publish = false

[dependencies]
clap = { version = "3", features = ["derive"] }
console = "0.15"
serde = { version = "1", features = ["derive"] }
serde_json = "1"
winapi = { version = "0.3", features = ["psapi", "processthreadsapi", "handleapi", "winnt", "ntdef", "minwindef", "winerror"] }
