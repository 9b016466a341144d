[package]
name = "subreddit_posts_logic"
version = "0.1.0"
edition = "2021"
publish = false

[dependencies]
serde_urlencoded = "*"
serde = "*"
serde_derive = "*"
serde_json = "*"
reqwest = { version = "*", default-features = false }
actix-web = { version = "*", default-features = false, features = ["macros"] }
dotenv = "*"
env_logger = "*"
uuid = { version = "*", features = ["v4"] }
webbrowser = "*"
