[package]
name = "hello_tui"
version = "0.1.0"
edition = "2021"
publish = false

[dependencies]
tuirealm = "1"
tui-realm-stdlib = "1"
