[package]
name = "gptneox"
version = "0.1.0"
edition = "2021"
publish = false

[dependencies]
llm-base = "*"
ggml = "*"
