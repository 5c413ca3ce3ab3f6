[package]
name = "purpl"
version = "0.1.0"
edition = "2021"
publish = false

[dependencies]
directories = "*"
log = "0.4"
fern = "*"
chrono = "0.4"
mimalloc = "*"
winapi = { version = "0.3", features = ["winuser", "libloaderapi", "errhandlingapi", "windef"] }
