[package]
name = "autosar_data_abstraction"
version = "0.1.0"
edition = "2021"
publish = false

[dependencies]
autosar-data = "*"
thiserror = "*"
