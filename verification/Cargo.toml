[package]
name = "killer"
version = "0.1.0"
edition = "2021"
publish = false

[dependencies]
hex = "0.4"
hmac = "0.12"
sha2 = "0.10"
subtle = "2"
rand = "0.8"
hostname = "0.4"
libc = "0.2"
nix = { version = "0.29", features = ["signal", "process"] }
reqwest = { version = "0.12", features = ["blocking", "json"] }
serde = { version = "1", features = ["derive"] }
serde_json = "1"
winapi = { version = "0.3", features = ["handleapi", "memoryapi", "processthreadsapi", "psapi", "tlhelp32", "winbase", "winnt"] }
