[package]
name = "stock_predictor"
version = "0.1.0"
edition = "2021"
publish = false

[dependencies]
anyhow = "1"
phf = { version = "0.11", features = ["macros"] }
web-sys = { version = "0.3", features = ["EventTarget", "HtmlInputElement", "HtmlSelectElement"] }
yew = { version = "0.21", features = ["csr"] }

[dev-dependencies]
phf_generator = "0.11"
