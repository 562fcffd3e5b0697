[package]
name = "ctrlc"
version = "0.1.0"
edition = "2021"
publish = false

[dependencies]
winapi = { version = "0.3", features = ["consoleapi", "handleapi", "minwindef", "ntdef", "synchapi", "winbase", "wincon"] }
