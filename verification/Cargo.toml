[package]
name = "lambstock"
version = "0.1.0"
edition = "2021"
publish = false

[dependencies]
humansize = "1"
rusoto_core = { version = "0.48", default-features = false, features = ["rustls"] }
rusoto_lambda = { version = "0.48", default-features = false, features = ["rustls"] }
rusoto_resourcegroupstaggingapi = { version = "0.48", default-features = false, features = ["rustls"] }
tokio = { version = "1", features = ["rt-multi-thread", "time", "macros"] }
futures = "0.3"
structopt = "0.3"
env_logger = "0.9"
log = "0.4"
tabwriter = "1"
failure = "0.1"
