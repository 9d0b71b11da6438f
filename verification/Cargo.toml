[package]
name = "admission-webhook"
version = "0.1.0"
edition = "2021"
publish = false

[dependencies]
async-trait = "=0.1.92"
axum = "=0.5.17"
axum-server = { version = "=0.4.7", features = ["tls-rustls"] }
bb8 = "=0.8.6"
clap = { version = "=3.2.25", features = ["derive", "env"] }
clap_complete = "=3.2.5"
indexmap = "=1.9.3"
json-patch = "=0.2.7"
k8s-openapi = { version = "=0.16.0", default-features = false, features = ["v1_25"] }
kube = { version = "=0.75.0", default-features = false, features = ["admission", "derive"] }
mimalloc = "=0.1.52"
mime = "=0.3.17"
opentelemetry = { version = "0.20", features = ["rt-tokio"] }
opentelemetry-otlp = "0.13"
opentelemetry-semantic-conventions = "0.12"
schemars = "=0.8.22"
serde = { version = "=1.0.229", features = ["derive"] }
serde_json = "=1.0.154"
snafu = "=0.7.5"
tokio = { version = "=1.54.1", features = ["rt-multi-thread", "macros", "signal"] }
tower = "=0.4.13"
tower-http = { version = "=0.3.5", features = ["trace", "compression-full"] }
tracing = "=0.1.44"
tracing-opentelemetry = "0.21"
tracing-subscriber = { version = "=0.3.23", features = ["env-filter"] }
