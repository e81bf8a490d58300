[package]
name = "rugif"
version = "0.1.0"
edition = "2021"
publish = false

[dependencies]
directories = "6"
serde = { version = "1", features = ["derive"] }
toml = "0.8"
clap = { version = "4", default-features = false, features = ["std", "derive", "help", "usage", "error-context"] }
thiserror = "2"
error-stack = { version = "0.5", default-features = false, features = ["std"] }
tracing = "0.1"
tracing-subscriber = { version = "0.3", default-features = false, features = ["std", "fmt", "env-filter"] }
tokio = { version = "1", features = ["rt", "time"] }
ksni = "0.3"
x11rb = { version = "0.13", features = ["shm"] }
libc = "0.2"
gifski = { version = "1", default-features = false }
image = { version = "0.25", default-features = false, features = ["png"] }
eframe = { version = "0.31", default-features = false, features = ["glow", "x11", "default_fonts"] }
winit = { version = "0.30", default-features = false, features = ["x11", "rwh_06"] }
