[package]
name = "osd_overlay"
version = "0.1.0"
edition = "2021"
publish = false

[dependencies]
xcb = { version = "=0.9.0", features = ["randr", "render"] }
pango = "=0.18.3"
pangocairo = "=0.18.0"
cairo-rs = { version = "=0.18.5", features = ["xcb"] }
structopt = "=0.3.26"
thiserror = "=1.0.69"
