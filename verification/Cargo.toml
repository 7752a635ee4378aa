[package]
name = "zbus_xml_match"
version = "0.1.0"
edition = "2021"
publish = false

[dependencies]
zbus = { version = "3", features = ["xml"] }
