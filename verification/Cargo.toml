[package]
name = "grpc_labelstore"
version = "0.1.0"
edition = "2021"
publish = false

[dependencies]
async-trait = "=0.1.92"
bytes = "=1.12.1"
clap = { version = "=4.6.7", features = ["derive"] }
prost = "=0.13.5"
terminus-store = "=0.19.11"
tokio = { version = "=1.54.1", features = ["macros", "rt-multi-thread", "sync"] }
tonic = "=0.12.3"
