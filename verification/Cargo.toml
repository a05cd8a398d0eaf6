[package]
name = "configure_me_codegen"
version = "0.1.0"
edition = "2021"
publish = false

[dependencies]
cargo_toml = "*"
parse_arg = "*"
serde = { version = "1", features = ["derive"] }
serde_derive = "1"
toml = "*"
void = "1"
