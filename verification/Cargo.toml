[package]
name = "holler"
version = "0.5.0"
edition = "2021"
publish = false

[dependencies]
ab_glyph = "0.2"
arboard = { version = "3.6", default-features = false }
directories = "6"
egui = { version = "0.34", default-features = false, features = ["default_fonts"] }
egui_glow = { version = "0.34", default-features = false, features = ["winit", "x11"] }
enigo = { version = "0.6", default-features = false, features = ["x11rb"] }
global-hotkey = "0.8"
glutin = { version = "0.32", default-features = false, features = ["egl", "glx", "x11", "wgl"] }
glutin-winit = { version = "0.5", default-features = false, features = ["egl", "glx", "x11", "wgl"] }
hound = "3.5"
libc = "0.2"
mimalloc = "0.1"
objc2 = "0.6"
objc2-avf-audio = "*"
objc2-foundation = "*"
reqwest = { version = "*", features = ["blocking", "multipart"] }
rubato = "*"
rusqlite = { version = "*", features = ["bundled"] }
serde = { version = "1", features = ["derive"] }
serde_json = "1"
softbuffer = { version = "*", default-features = false, features = ["x11", "x11-dlopen"] }
toml = "1"
webrtc-vad = "0.4"
winit = { version = "0.30", default-features = false, features = ["x11", "rwh_06"] }
