[package]
name = "ldap_probe"
version = "0.1.0"
edition = "2021"
publish = false

[dependencies]
ldap3 = "0.11"
tokio = { version = "1", features = ["macros", "rt-multi-thread", "time"] }
