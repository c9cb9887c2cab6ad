[package]
name = "hanzi"
version = "0.1.0"
edition = "2021"
publish = false

[dependencies]
nonempty-collections = "=1.4.0"
serde_json = "=1.0.154"
serde = { version = "1", features = ["derive"] }
thiserror = "2"
log = "0.4"
fern = "0.7"
humantime = "2"
dotenv = "0.15"
tokio = { version = "1", features = ["rt-multi-thread", "macros"] }
ollama-rs = { version = "=0.3.6", default-features = false }
poll-promise = { version = "=0.3.0", features = ["tokio"] }
diesel = { version = "=2.3.14", default-features = false, features = ["sqlite"] }
diesel_migrations = "=2.3.2"
eframe = { version = "0.31", default-features = false, features = ["glow", "default_fonts", "x11"] }
egui = { version = "0.31", default-features = false }
egui_extras = { version = "0.31", default-features = false }
egui-notify = "0.19"
egui-modal-spinner = "0.3"
core-graphics = "0.24"
