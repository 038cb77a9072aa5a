[package]
name = "fltk_webview"
version = "0.1.0"
edition = "2021"
publish = false

[dependencies]
fltk = "1"
webview-official-sys = "*"
