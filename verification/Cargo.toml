[package]
name = "todo_list"
version = "0.1.0"
edition = "2021"
publish = false

[dependencies]
yew = "0.19"
web-sys = { version = "0.3", features = ["HtmlInputElement", "console"] }
