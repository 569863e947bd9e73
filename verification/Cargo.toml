[package]
name = "glues"
version = "0.1.0"
edition = "2021"
publish = false

[dependencies]
tui-textarea = "=0.7.0"
ratatui = "=0.29.0"
cursive = { version = "=0.21.1", default-features = false, features = ["crossterm-backend"] }
gluesql = { version = "=0.20.0", default-features = false, features = ["gluesql_memory_storage"] }
futures = "=0.3.34"
uuid = { version = "=1.29.0", features = ["v7"] }
async-recursion = "=1.2.0"
