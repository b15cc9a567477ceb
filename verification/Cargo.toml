[package]
name = "raft_cluster"
version = "0.1.0"
edition = "2021"
publish = false

[dependencies]
rand = "0.7"
actix = "0.10"
futures = "0.3"
