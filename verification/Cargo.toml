[package]
name = "polkadot_erc20"
version = "0.1.0"
edition = "2021"
publish = false

[dependencies]
ink_allocator = "=3.0.0-rc6"
ink_env = "=3.0.0-rc6"
ink_lang = "=3.0.0-rc6"
ink_lang_codegen = "=3.0.0-rc6"
ink_lang_ir = "=3.0.0-rc6"
ink_prelude = "=3.0.0-rc6"
ink_primitives = "=3.0.0-rc6"
ink_storage = "=3.0.0-rc6"
ink_storage_derive = "=3.0.0-rc6"
parity-scale-codec = "=2.3.1"
