[package]
name = "rs1553_net"
version = "0.1.0"
edition = "2021"
publish = false

[dependencies]
heapless = "*"
tokio = { version = "*", features = ["rt-multi-thread", "macros", "net", "io-util", "sync", "time"] }
tracing = "*"
tracing-subscriber = { version = "*", features = ["env-filter"] }
ratatui = "*"
ratatui-textarea = "*"
crossterm = "*"
reqwest = { version = "*", default-features = false, features = ["json"] }
serde = { version = "*", features = ["derive"] }
serde_json = "*"
color-eyre = "*"
plotters = { version = "*", default-features = false, features = ["bitmap_backend", "bitmap_encoder", "line_series", "full_palette"] }
