[package]
name = "keypress"
version = "0.1.0"
edition = "2021"
publish = false

[dependencies]
crossterm = "*"
evdev = "*"
winapi = { version = "0.3", features = ["consoleapi", "handleapi", "processenv", "winbase", "wincon", "winuser", "winnt", "minwindef"] }
core-foundation = "*"
core-graphics = "*"
