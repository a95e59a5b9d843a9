[package]
name = "kd_rusty_crawler"
version = "0.1.0"
edition = "2021"
publish = false

[dependencies]
libc = "0.2"
winapi = { version = "0.3", features = ["wincon", "winbase", "errhandlingapi", "processenv", "consoleapi"] }
