[package]
name = "pinput"
version = "0.1.0"
edition = "2021"
publish = false

[dependencies]
caps = "*"
chrono = "*"
ctrlc = "*"
memchr = "2"
plist = "1"
proc-maps = "*"
process-memory = "*"
sdl2 = "*"
serde = { version = "1", features = ["derive"] }
sysinfo = "*"
thiserror = "*"
timer = "*"
uuid = "1"
