[package]
name = "goonto"
version = "0.1.0"
edition = "2021"
publish = false

[dependencies]
rand = "=0.8.5"
anyhow = "=1.0.104"
log = "=0.4.35"
serde = { version = "=1.0.229", features = ["derive"] }
serde_yaml = "=0.9.34"
serde-xml-rs = "=0.6.0"
reqwest = { version = "=0.11.27", default-features = false, features = ["json"] }
tokio = { version = "=1.54.1", features = ["rt-multi-thread"] }
futures = "=0.3.34"
simplelog = "=0.12.2"
single-instance = "=0.3.3"
directories = "=5.0.1"
discord-rich-presence = "=0.2.5"
defaults = "=0.2.0"
fltk = { version = "1.4", default-features = false }
dialog = "0.3"
x11 = { version = "2", features = ["xlib", "xfixes"] }
enigo = "0.1"
global-hotkey = "0.2"
