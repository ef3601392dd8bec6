[package]
name = "vizier"
version = "0.1.0"
edition = "2021"
publish = false

[dependencies]
google-authz = "=0.0.2"
gouth = "=0.2.1"
prost = "=0.14.4"
prost-types = "=0.14.4"
thiserror = "=2.0.21"
tokio = { version = "=1.53.2", features = ["rt", "time"] }
tonic = { version = "=0.14.6", features = ["tls-ring", "tls-native-roots"] }
tonic-prost = "0.14"
