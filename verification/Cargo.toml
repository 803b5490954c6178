[package]
name = "dao_proposal"
version = "0.1.0"
edition = "2021"
publish = false

[dependencies]
ink_env = "=3.0.0-rc5"
ink_lang = "=3.0.0-rc5"
ink_prelude = "=3.0.0-rc5"
ink_storage = "=3.0.0-rc5"
parity-scale-codec = { version = "2", features = ["derive"] }
scale-info = { version = "1", features = ["derive"] }
