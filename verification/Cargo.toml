[package]
name = "wash_generate"
version = "0.1.0"
edition = "2021"
publish = false

[dependencies]
anyhow = "=1.0.104"
async-trait = "=0.1.92"
handlebars = "=6.4.4"
regex = "=1.13.1"
serde_json = "=1.0.154"
thiserror = "=2.0.21"
toml = "=1.1.8"
wasmtime = { version = "=44.0.3", default-features = false, features = ["runtime", "component-model", "std"] }
