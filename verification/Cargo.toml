[package]
name = "ptynotify"
version = "0.1.0"
edition = "2021"
publish = false

[dependencies]
nix = { version = "*", features = ["term", "fs", "inotify", "uio"] }
rustix = { version = "*", features = ["fs", "pty", "event", "termios"] }

[dev-dependencies]
tempfile = "*"
