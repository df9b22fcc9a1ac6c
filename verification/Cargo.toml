[package]
name = "corn_dbio_kit"
version = "0.1.0"
edition = "2021"
publish = false

[dependencies]
regex = "1"
anyhow = "1"
dotenvy = "0.15"
rusqlite = { version = "*", features = ["bundled"] }
tiberius = { version = "0.12", default-features = false, features = ["tds73", "rustls"] }
tokio = { version = "1", features = ["rt", "net", "time"] }
tokio-util = { version = "0.7", features = ["compat"] }
futures-util = "0.3"
mysql = { version = "*", default-features = false, features = ["minimal"] }
postgres = "0.19"
oracle-rs = "*"
ratatui = "0.26"
crossterm = "0.27"
