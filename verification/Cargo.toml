[package]
name = "mstarplayer_mqtt_plugin"
version = "0.1.0"
edition = "2021"
publish = false

[dependencies]
env_logger = "=0.10.2"
i-slint-core = { version = "=1.18.1", default-features = false, features = ["image-decoders"] }
log = "=0.4.34"
rumqttc = { version = "=0.24.0", default-features = false }
slint = { version = "=1.18.1", default-features = false, features = ["std", "compat-1-2"] }
