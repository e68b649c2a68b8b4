[package]
name = "dpvoice"
version = "0.1.0"
edition = "2021"
publish = false

[dependencies]
com = { version = "=0.6.0", features = ["production"] }
winapi = { version = "=0.3.9", features = ["dsound", "errhandlingapi", "libloaderapi", "minwindef", "ntdef", "unknwnbase", "windef", "winerror"] }
winreg = "=0.10.1"
