[package]
name = "jolly"
version = "0.1.0"
edition = "2021"
publish = false

[dependencies]
url = "*"
urlencoding = "*"
pulldown-cmark = "*"
toml = { version = "*", features = ["preserve_order"] }
serde = { version = "*", features = ["derive"] }
csscolorparser = "*"
opener = "*"
dirs = "*"
env_logger = "*"
dark-light = "*"
freedesktop-icons = "*"
xdg-mime = "*"
resvg = "*"

[dev-dependencies]
tempfile = "*"
