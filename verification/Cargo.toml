[package]
name = "what_the_fn"
version = "0.1.0"
edition = "2021"
publish = false

[dependencies]
addr2line = "=0.27.1"
gimli = { version = "=0.34.0", default-features = false, features = ["read", "endian-reader"] }
object = "=0.40.0"
serde = { version = "=1.0.229", features = ["derive"] }
serde_json = "=1.0.154"
gtk4 = "=0.6.6"
libadwaita = { version = "=0.3.1", features = ["v1_2"] }
glib = "=0.17.10"
gio = "=0.17.10"
once_cell = "=1.21.4"
