[package]
name = "himawari_wallpaper"
version = "0.1.0"
edition = "2021"
publish = false

[dependencies]
chrono = "0.4"
image = "0.22"
winapi = { version = "0.3", features = ["winuser", "shellapi", "wingdi", "winnt", "minwindef", "windef", "basetsd", "ntdef"] }
wallpaper = { version = "3", default-features = false }
thread-id = "4"
lazy_static = "1"
