[package]
name = "yterm"
version = "0.1.0"
edition = "2021"
publish = false

[dependencies]
tokio = { version = "1", features = ["rt", "rt-multi-thread", "sync", "fs", "io-util", "time"] }
libc = "0.2"
async-trait = "0.1"
gtk = "0.9"
gdk = "0.13"
glib = "0.10"
gio = "0.9"
cairo-rs = "0.9"
