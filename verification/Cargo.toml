[package]
name = "expression_editor_ui"
version = "0.1.0"
edition = "2021"
publish = false

[dependencies]
png = "*"
base64 = "*"
kurbo = "*"
peniko = "*"
anyrender = "*"
anyrender_vello_cpu = "*"
keyboard-types = "*"
tracing = "*"
