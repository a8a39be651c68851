[package]
name = "leptos_template"
version = "0.1.0"
edition = "2021"
publish = false

[dependencies]
oauth2 = { version = "4", default-features = false, features = ["reqwest"] }
axum = "0.7"
chrono = { version = "0.4", features = ["serde"] }
futures = "0.3"
http = "1"
leptos = { version = "0.7", features = ["ssr"] }
leptos_axum = "0.7"
server_fn = "0.7"
rmp-serde = "1"
serde = { version = "1", features = ["derive"] }
sqlx = { version = "0.8", default-features = false, features = ["sqlite", "runtime-tokio", "chrono", "macros", "migrate"] }
thiserror = "1"
time = "0.3"
tokio = { version = "1", features = ["full"] }
tower-sessions = "0.13"
tower-sessions-core = "0.13"
tower-sessions-sqlx-store = { version = "0.14", features = ["sqlite"] }
