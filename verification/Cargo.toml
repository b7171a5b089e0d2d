[package]
name = "git_diary"
version = "0.1.0"
edition = "2021"
publish = false

[dependencies]
anyhow = "=1.0.104"
async-openai = { version = "=0.42.2", features = ["chat-completion"] }
async-trait = "=0.1.92"
chrono = "=0.4.45"
clap = { version = "=4.6.7", features = ["derive"] }
git2 = { version = "=0.21.0", default-features = false }
tokio = { version = "=1.54.1", features = ["macros", "rt-multi-thread"] }
