[package]
name = "osx_system_tray"
version = "0.1.0"
edition = "2021"
publish = false

[dependencies]
bincode = "1"
cocoa = "0.24"
objc = "0.2"
thiserror = "1"
