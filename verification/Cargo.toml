[package]
name = "avro_validation"
version = "0.1.0"
edition = "2021"
publish = false

[dependencies]
apache-avro = "=0.22.0"
serde_json = "=1.0.154"
thiserror = "=2.0.21"
