[package]
name = "re_set_lib"
version = "0.1.0"
edition = "2021"
publish = false

[dependencies]
toml = "=0.8.23"
libloading = "=0.8.9"
once_cell = "=1.21.4"
xdg = "=2.5.2"
dbus = { version = "=0.9.12", features = ["vendored"] }
dbus-crossroads = "=0.5.3"
gtk4 = "=0.11.5"
libpulse-binding = "=2.30.1"
