[package]
name = "stripe_subscription"
version = "0.1.0"
edition = "2021"
publish = false

[dependencies]
aes-gcm = "=0.10.3"
getrandom = "=0.3.4"
hmac = "=0.12.1"
lenso-capability-billing-meter-sink = "=0.1.0"
lenso-capability-entitlements-admin = "=0.1.0"
lenso-capability-http-client = "=0.2.5"
lenso-kernel = "0.2"
lenso-postgres-kit = "=0.1.1"
serde = { version = "1", features = ["derive"] }
serde_json = { version = "=1.0.154", features = ["preserve_order"] }
sha2 = "=0.10.9"
sqlx = { version = "=0.9.0", default-features = false, features = ["postgres", "runtime-tokio", "time"] }
thiserror = "2"
time = { version = "=0.3.55", features = ["formatting", "parsing"] }
url = "=2.5.8"
zeroize = "=1.9.1"
