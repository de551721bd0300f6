[package]
name = "rumqttc_native"
version = "0.1.0"
edition = "2021"
publish = false

[dependencies]
rumqttc = { version = "=0.25.1", default-features = false }
tokio = { version = "=1.54.1", features = ["rt-multi-thread", "sync", "time", "macros", "net"] }
tokio-util = "=0.7.20"
jni = "=0.21.1"
log = "=0.4.35"
android_logger = "=0.15.1"
