[package]
name = "task_manager"
version = "0.1.0"
edition = "2021"
publish = false

[dependencies]
url = "*"
languageserver-types = "*"
generational-arena = "*"
