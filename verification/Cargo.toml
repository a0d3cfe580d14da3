[package]
name = "testing_dataset"
version = "0.1.0"
edition = "2021"
publish = false

[dependencies]
arrow = { version = "=59.3.0", default-features = false }
async-trait = "=0.1.92"
datafusion-common = { version = "=55.1.0", default-features = false }
datafusion-datasource = { version = "=55.1.0", default-features = false }
datafusion-expr = { version = "=55.1.0", default-features = false }
datafusion-physical-plan = "=55.1.0"
datafusion-session = "=55.1.0"

[dev-dependencies]
futures = "0.3"
datafusion-execution = "=55.1.0"
