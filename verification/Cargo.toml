[package]
name = "book_library"
version = "0.1.0"
edition = "2021"
publish = false

[dependencies]
regex = "1"
base64 = "0.21"
serde = { version = "1", features = ["derive"] }
serde_json = "1"
anyhow = "1"
actix-web = { version = "4", default-features = false, features = ["macros"] }
actix-files = "0.6"
sqlx = { version = "0.7", default-features = false, features = ["mysql", "runtime-tokio"] }
yew = { version = "0.21", features = ["csr"] }
gloo-net = "0.4"
web-sys = { version = "0.3", features = ["HtmlInputElement", "DragEvent", "DataTransfer", "FileList", "File", "Blob", "console"] }
wasm-bindgen-futures = "0.4"
input_yew = "0.1"
