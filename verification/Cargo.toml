[package]
name = "ts3_client"
version = "0.1.0"
edition = "2021"
publish = false

[dependencies]
anyhow = "1"
audiopus = "0.2"
auto-launch = "*"
axum = { version = "0.8", default-features = false, features = ["http1", "json", "tokio"] }
dirs = "6"
futures = "0.3"
serde = { version = "1", features = ["derive"] }
slog = "2"
tokio = { version = "1", features = ["rt", "macros", "net", "sync", "time"] }
toml = "0.9"
tracing = "0.1"
tracing-subscriber = { version = "0.3", default-features = false, features = ["fmt"] }
tsclientlib = "0.2"
tsproto-packets = "=0.1.0"
windows-sys = { version = "0.61", features = ["Win32_Foundation", "Win32_Globalization", "Win32_UI_Input_KeyboardAndMouse", "Win32_UI_WindowsAndMessaging"] }
