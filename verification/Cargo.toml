[package]
name = "admin_app"
version = "0.1.0"
edition = "2021"
publish = false

[dependencies]
apdu-dispatch = "0.1"
ctaphid-dispatch = "0.1"
iso7816 = "0.1"
trussed = "0.1"
