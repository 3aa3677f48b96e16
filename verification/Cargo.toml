[package]
name = "rask_component_transform"
version = "0.1.0"
edition = "2021"
publish = false

[dependencies]
serde = { version = "1", features = ["derive"] }
serde_json = "1"
swc_core = { version = "*", features = ["ecma_ast", "ecma_utils", "ecma_visit", "ecma_plugin_transform"] }
